//! The engine's run loop, as decisions from state and event to next state and actions.
//!
//! A driver owns the transport, the frontend connection and the cancellation
//! tokens. It hands each thing that happens to [`IntifaceEngine::handle`] and
//! performs the actions that come back, in order.
use vstd::prelude::*;
use crate::messages::{EngineMessage, EngineMessageView, IntifaceMessage};
use vstd::string::StringExecFns;

verus! {

/// Something the device-control server reports.
pub enum ServerEvent {
    ClientConnected { client_name: String },
    ClientDisconnected,
    DeviceAdded { index: u32, name: String, identifier: String, display_name: String },
    DeviceRemoved { index: u32 },
}

/// How one serving session came to an end.
pub enum SessionOutcome {
    /// The process or the frontend connection was cancelled.
    Cancelled,
    /// The transport finished serving: its client went away.
    Dropped,
    /// The transport failed while serving.
    Failed { message: String },
}

/// Something the driver tells the engine.
pub enum EngineEvent {
    /// The frontend is connected and the run begins.
    Start,
    Server(ServerEvent),
    /// The server's event stream closed.
    ServerEventsEnded,
    Frontend(IntifaceMessage),
    /// The connection guard turned a second client away.
    GuardRejected,
    /// The frontend connection was lost.
    FrontendLost,
    SessionEnded(SessionOutcome),
}

/// Something the driver must do.
pub enum EngineAction {
    Send(EngineMessage),
    /// Start a session: a fresh session token, then accept and serve one client.
    Serve,
    StartAdvertising,
    StopAdvertising,
    StartGuard,
    StopGuard,
    CancelSession,
    /// Cancel the process-wide token.
    CancelRoot,
    /// Stop accepting and flush the server.
    ShutdownServer,
    /// Wait briefly, so that the frontend can take the last messages.
    Pause,
    DisconnectFrontend,
}

pub enum EngineActionView {
    Send(EngineMessageView),
    Serve,
    StartAdvertising,
    StopAdvertising,
    StartGuard,
    StopGuard,
    CancelSession,
    CancelRoot,
    ShutdownServer,
    Pause,
    DisconnectFrontend,
}

impl View for EngineAction {
    type V = EngineActionView;

    open spec fn view(&self) -> EngineActionView {
        match self {
            EngineAction::Send(m) => EngineActionView::Send(m@),
            EngineAction::Serve => EngineActionView::Serve,
            EngineAction::StartAdvertising => EngineActionView::StartAdvertising,
            EngineAction::StopAdvertising => EngineActionView::StopAdvertising,
            EngineAction::StartGuard => EngineActionView::StartGuard,
            EngineAction::StopGuard => EngineActionView::StopGuard,
            EngineAction::CancelSession => EngineActionView::CancelSession,
            EngineAction::CancelRoot => EngineActionView::CancelRoot,
            EngineAction::ShutdownServer => EngineActionView::ShutdownServer,
            EngineAction::Pause => EngineActionView::Pause,
            EngineAction::DisconnectFrontend => EngineActionView::DisconnectFrontend,
        }
    }
}

#[derive(PartialEq, Eq, Structural, Clone, Copy, Debug)]
pub enum EnginePhase {
    Created,
    Serving,
    Stopped,
}

/// The engine's state as contracts see it.
pub struct EngineState {
    pub phase: EnginePhase,
    /// The process-wide stop was asked for.
    pub stop_requested: bool,
    /// The frontend connection is gone.
    pub frontend_lost: bool,
    /// A client holds the current session.
    pub occupied: bool,
    /// Each session advertises itself on the network until a client connects.
    pub advertise: bool,
    /// The advertisement of the current session is up.
    pub advertising: bool,
    /// The version the engine reports.
    pub version: Seq<char>,
}

/// The run loop of the engine.
pub struct IntifaceEngine {
    phase: EnginePhase,
    stop_requested: bool,
    frontend_lost: bool,
    occupied: bool,
    advertise: bool,
    advertising: bool,
    version: String,
}

impl View for IntifaceEngine {
    type V = EngineState;

    closed spec fn view(&self) -> EngineState {
        EngineState {
            phase: self.phase,
            stop_requested: self.stop_requested,
            frontend_lost: self.frontend_lost,
            occupied: self.occupied,
            advertise: self.advertise,
            advertising: self.advertising,
            version: self.version@,
        }
    }
}

pub open spec fn send(m: EngineMessageView) -> Seq<EngineActionView> {
    seq![EngineActionView::Send(m)]
}

/// Actions that open a session.
pub open spec fn serve_actions(s: EngineState) -> Seq<EngineActionView> {
    if s.advertise {
        seq![EngineActionView::StartAdvertising, EngineActionView::Serve]
    } else {
        seq![EngineActionView::Serve]
    }
}

/// Whether a session that ended this way ends the run.
pub open spec fn ends_run(s: EngineState, outcome: SessionOutcome) -> bool {
    !(outcome is Dropped) || s.stop_requested || s.frontend_lost
}

/// Actions when a session ends.
pub open spec fn session_end_actions(s: EngineState, outcome: SessionOutcome) -> Seq<
    EngineActionView,
> {
    let error = match outcome {
        SessionOutcome::Failed { message } => send(EngineMessageView::EngineError { message: message@ }),
        _ => Seq::empty(),
    };
    let close = if s.occupied {
        send(EngineMessageView::ClientDisconnected) + seq![EngineActionView::StopGuard]
    } else {
        Seq::empty()
    };
    let unadvertise = if s.advertising {
        seq![EngineActionView::StopAdvertising]
    } else {
        Seq::empty()
    };
    let after = if ends_run(s, outcome) {
        seq![EngineActionView::ShutdownServer] + send(EngineMessageView::EngineStopped) + seq![
            EngineActionView::Pause,
            EngineActionView::DisconnectFrontend,
        ]
    } else {
        serve_actions(s)
    };
    error + close + unadvertise + seq![EngineActionView::CancelSession] + after
}

/// What the engine does on an event.
pub open spec fn reaction(s: EngineState, e: EngineEvent) -> Seq<EngineActionView> {
    match e {
        EngineEvent::Start => if s.phase == EnginePhase::Created {
            send(EngineMessageView::EngineStarted) + serve_actions(s)
        } else {
            Seq::empty()
        },
        EngineEvent::Server(ev) => if s.phase != EnginePhase::Serving {
            Seq::empty()
        } else {
            match ev {
                ServerEvent::ClientConnected { client_name } => if s.occupied {
                    Seq::empty()
                } else {
                    send(EngineMessageView::ClientConnected { client_name: client_name@ }) + (
                    if s.advertising {
                        seq![EngineActionView::StopAdvertising]
                    } else {
                        Seq::empty()
                    }) + seq![EngineActionView::StartGuard]
                },
                ServerEvent::ClientDisconnected => if s.occupied {
                    send(EngineMessageView::ClientDisconnected) + seq![EngineActionView::StopGuard]
                } else {
                    Seq::empty()
                },
                ServerEvent::DeviceAdded { index, name, identifier, display_name } => send(
                    EngineMessageView::DeviceConnected {
                        name: name@,
                        index,
                        identifier: identifier@,
                        display_name: display_name@,
                    },
                ),
                ServerEvent::DeviceRemoved { index } => send(
                    EngineMessageView::DeviceDisconnected { index },
                ),
            }
        },
        EngineEvent::ServerEventsEnded => if s.phase == EnginePhase::Serving && s.occupied {
            send(EngineMessageView::ClientDisconnected) + seq![EngineActionView::StopGuard]
        } else {
            Seq::empty()
        },
        EngineEvent::Frontend(m) => match m {
            IntifaceMessage::Stop => seq![EngineActionView::CancelRoot],
            IntifaceMessage::RequestEngineVersion { .. } => send(
                EngineMessageView::EngineVersion { version: s.version },
            ),
        },
        EngineEvent::GuardRejected => if s.phase == EnginePhase::Serving && s.occupied {
            send(EngineMessageView::ClientRejected { reason: "Unknown"@ })
        } else {
            Seq::empty()
        },
        EngineEvent::FrontendLost => Seq::empty(),
        EngineEvent::SessionEnded(outcome) => if s.phase == EnginePhase::Serving {
            session_end_actions(s, outcome)
        } else {
            Seq::empty()
        },
    }
}

/// The state after `stop`.
pub open spec fn stopped(s: EngineState) -> EngineState {
    EngineState { stop_requested: true, ..s }
}

/// The engine's state after an event.
pub open spec fn next_state(s: EngineState, e: EngineEvent) -> EngineState {
    match e {
        EngineEvent::Start => if s.phase == EnginePhase::Created {
            EngineState { phase: EnginePhase::Serving, advertising: s.advertise, ..s }
        } else {
            s
        },
        EngineEvent::Server(ev) => if s.phase != EnginePhase::Serving {
            s
        } else {
            match ev {
                ServerEvent::ClientConnected { .. } => if s.occupied {
                    s
                } else {
                    EngineState { occupied: true, advertising: false, ..s }
                },
                ServerEvent::ClientDisconnected => EngineState { occupied: false, ..s },
                _ => s,
            }
        },
        EngineEvent::ServerEventsEnded => if s.phase == EnginePhase::Serving {
            EngineState { occupied: false, ..s }
        } else {
            s
        },
        EngineEvent::Frontend(m) => match m {
            IntifaceMessage::Stop => stopped(s),
            _ => s,
        },
        EngineEvent::GuardRejected => s,
        EngineEvent::FrontendLost => EngineState { frontend_lost: true, ..s },
        EngineEvent::SessionEnded(outcome) => if s.phase == EnginePhase::Serving {
            if ends_run(s, outcome) {
                EngineState {
                    phase: EnginePhase::Stopped,
                    occupied: false,
                    advertising: false,
                    ..s
                }
            } else {
                EngineState { occupied: false, advertising: s.advertise, ..s }
            }
        } else {
            s
        },
    }
}

} // verus!

verus! {

pub open spec fn actions_view(v: Seq<EngineAction>) -> Seq<EngineActionView> {
    v.map_values(|a: EngineAction| a@)
}

fn push_action(v: &mut Vec<EngineAction>, a: EngineAction)
    ensures
        actions_view(final(v)@) == actions_view(old(v)@).push(a@),
{
    let ghost av = a@;
    v.push(a);
    assert(actions_view(v@) =~= actions_view(old(v)@).push(av));
}

impl IntifaceEngine {
    /// An engine that reports `version`, and that advertises each session on
    /// the network where `advertise` holds.
    pub fn new(version: &str, advertise: bool) -> (r: IntifaceEngine)
        ensures
            r@ == (EngineState {
                phase: EnginePhase::Created,
                stop_requested: false,
                frontend_lost: false,
                occupied: false,
                advertise,
                advertising: false,
                version: version@,
            }),
    {
        IntifaceEngine {
            phase: EnginePhase::Created,
            stop_requested: false,
            frontend_lost: false,
            occupied: false,
            advertise,
            advertising: false,
            version: String::from_str(version),
        }
    }

    pub fn phase(&self) -> (r: EnginePhase)
        ensures
            r == self@.phase,
    {
        self.phase
    }

    /// Whether a client holds the current session.
    pub fn is_occupied(&self) -> (r: bool)
        ensures
            r == self@.occupied,
    {
        self.occupied
    }

    /// Whether the process-wide stop was asked for.
    pub fn stop_requested(&self) -> (r: bool)
        ensures
            r == self@.stop_requested,
    {
        self.stop_requested
    }

    /// Asks the run to end; the driver cancels the process-wide token.
    pub fn stop(&mut self)
        ensures
            final(self)@ == stopped(old(self)@),
    {
        self.stop_requested = true;
    }

    fn serve(&mut self, out: &mut Vec<EngineAction>)
        ensures
            actions_view(final(out)@) == actions_view(old(out)@) + serve_actions(old(self)@),
            final(self)@ == old(self)@,
    {
        if self.advertise {
            push_action(out, EngineAction::StartAdvertising);
        }
        push_action(out, EngineAction::Serve);
        assert(actions_view(out@) =~= actions_view(old(out)@) + serve_actions(old(self)@));
    }

    fn end_session(&mut self, outcome: SessionOutcome) -> (r: Vec<EngineAction>)
        requires
            old(self)@.phase == EnginePhase::Serving,
        ensures
            actions_view(r@) == session_end_actions(old(self)@, outcome),
            final(self)@ == next_state(old(self)@, EngineEvent::SessionEnded(outcome)),
    {
        let ghost s = self@;
        let ghost o = outcome;
        let mut out: Vec<EngineAction> = Vec::new();
        let ends = match &outcome {
            SessionOutcome::Dropped => self.stop_requested || self.frontend_lost,
            _ => true,
        };
        if let SessionOutcome::Failed { message } = outcome {
            push_action(&mut out, EngineAction::Send(EngineMessage::EngineError { message }));
        }
        if self.occupied {
            push_action(&mut out, EngineAction::Send(EngineMessage::ClientDisconnected));
            push_action(&mut out, EngineAction::StopGuard);
        }
        if self.advertising {
            push_action(&mut out, EngineAction::StopAdvertising);
        }
        push_action(&mut out, EngineAction::CancelSession);
        self.occupied = false;
        if ends {
            push_action(&mut out, EngineAction::ShutdownServer);
            push_action(&mut out, EngineAction::Send(EngineMessage::EngineStopped));
            push_action(&mut out, EngineAction::Pause);
            push_action(&mut out, EngineAction::DisconnectFrontend);
            self.phase = EnginePhase::Stopped;
            self.advertising = false;
        } else {
            self.serve(&mut out);
            self.advertising = self.advertise;
        }
        assert(actions_view(out@) =~= session_end_actions(s, o));
        out
    }

    /// Decides what to do on `e`, and moves to the next state.
    pub fn handle(&mut self, e: EngineEvent) -> (r: Vec<EngineAction>)
        ensures
            actions_view(r@) == reaction(old(self)@, e),
            final(self)@ == next_state(old(self)@, e),
    {
        let ghost s = self@;
        let ghost ev = e;
        let mut out: Vec<EngineAction> = Vec::new();
        match e {
            EngineEvent::Start => {
                if self.phase == EnginePhase::Created {
                    push_action(&mut out, EngineAction::Send(EngineMessage::EngineStarted));
                    self.serve(&mut out);
                    self.phase = EnginePhase::Serving;
                    self.advertising = self.advertise;
                }
            },
            EngineEvent::Server(server_event) => {
                if self.phase == EnginePhase::Serving {
                    match server_event {
                        ServerEvent::ClientConnected { client_name } => {
                            if !self.occupied {
                                push_action(
                                    &mut out,
                                    EngineAction::Send(
                                        EngineMessage::ClientConnected { client_name },
                                    ),
                                );
                                if self.advertising {
                                    push_action(&mut out, EngineAction::StopAdvertising);
                                }
                                push_action(&mut out, EngineAction::StartGuard);
                                self.occupied = true;
                                self.advertising = false;
                            }
                        },
                        ServerEvent::ClientDisconnected => {
                            if self.occupied {
                                push_action(&mut out, EngineAction::Send(EngineMessage::ClientDisconnected));
                                push_action(&mut out, EngineAction::StopGuard);
                            }
                            self.occupied = false;
                        },
                        ServerEvent::DeviceAdded { index, name, identifier, display_name } => {
                            push_action(
                                &mut out,
                                EngineAction::Send(
                                    EngineMessage::DeviceConnected {
                                        name,
                                        index,
                                        identifier,
                                        display_name,
                                    },
                                ),
                            );
                        },
                        ServerEvent::DeviceRemoved { index } => {
                            push_action(
                                &mut out,
                                EngineAction::Send(EngineMessage::DeviceDisconnected { index }),
                            );
                        },
                    }
                }
            },
            EngineEvent::ServerEventsEnded => {
                if self.phase == EnginePhase::Serving {
                    if self.occupied {
                        push_action(&mut out, EngineAction::Send(EngineMessage::ClientDisconnected));
                        push_action(&mut out, EngineAction::StopGuard);
                    }
                    self.occupied = false;
                }
            },
            EngineEvent::Frontend(m) => {
                match m {
                    IntifaceMessage::Stop => {
                        self.stop();
                        push_action(&mut out, EngineAction::CancelRoot);
                    },
                    IntifaceMessage::RequestEngineVersion { .. } => {
                        let version = self.version.clone();
                        push_action(&mut out, EngineAction::Send(EngineMessage::EngineVersion { version }));
                    },
                }
            },
            EngineEvent::GuardRejected => {
                if self.phase == EnginePhase::Serving && self.occupied {
                    let reason = String::from_str("Unknown");
                    push_action(&mut out, EngineAction::Send(EngineMessage::ClientRejected { reason }));
                }
            },
            EngineEvent::FrontendLost => {
                self.frontend_lost = true;
            },
            EngineEvent::SessionEnded(outcome) => {
                if self.phase == EnginePhase::Serving {
                    out = self.end_session(outcome);
                }
            },
        }
        assert(actions_view(out@) =~= reaction(s, ev));
        out
    }
}

} // verus!

verus! {

// ---------------------------------------------------------------------------
// Runs: what a sequence of events does
// ---------------------------------------------------------------------------
/// The messages among a list of actions, in order.
pub open spec fn sent(acts: Seq<EngineActionView>) -> Seq<EngineMessageView>
    decreases acts.len(),
{
    if acts.len() == 0 {
        Seq::empty()
    } else {
        match acts.last() {
            EngineActionView::Send(m) => sent(acts.drop_last()).push(m),
            _ => sent(acts.drop_last()),
        }
    }
}

/// The state after a sequence of events.
pub open spec fn run_state(s: EngineState, evs: Seq<EngineEvent>) -> EngineState
    decreases evs.len(),
{
    if evs.len() == 0 {
        s
    } else {
        next_state(run_state(s, evs.drop_last()), evs.last())
    }
}

/// All actions of a sequence of events, in order.
pub open spec fn run_actions(s: EngineState, evs: Seq<EngineEvent>) -> Seq<EngineActionView>
    decreases evs.len(),
{
    if evs.len() == 0 {
        Seq::empty()
    } else {
        run_actions(s, evs.drop_last()) + reaction(run_state(s, evs.drop_last()), evs.last())
    }
}

/// Follows client sessions through a message stream: `open` holds while a
/// client is connected. `None` where the stream connects a client twice,
/// disconnects one that is not there, or reports a device while none is.
pub open spec fn bracket(msgs: Seq<EngineMessageView>, open: bool) -> Option<bool>
    decreases msgs.len(),
{
    if msgs.len() == 0 {
        Some(open)
    } else {
        match bracket(msgs.drop_last(), open) {
            None => None,
            Some(o) => match msgs.last() {
                EngineMessageView::ClientConnected { .. } => if o {
                    None
                } else {
                    Some(true)
                },
                EngineMessageView::ClientDisconnected => if o {
                    Some(false)
                } else {
                    None
                },
                EngineMessageView::DeviceConnected { .. } => if o {
                    Some(true)
                } else {
                    None
                },
                _ => Some(o),
            },
        }
    }
}

/// The server reports a device only while a client is connected.
pub open spec fn device_while_connected(s: EngineState, e: EngineEvent) -> bool {
    (e matches EngineEvent::Server(ServerEvent::DeviceAdded { .. }) && s.phase
        == EnginePhase::Serving) ==> s.occupied
}

pub open spec fn devices_while_connected(s: EngineState, evs: Seq<EngineEvent>) -> bool
    decreases evs.len(),
{
    if evs.len() == 0 {
        true
    } else {
        devices_while_connected(s, evs.drop_last()) && device_while_connected(
            run_state(s, evs.drop_last()),
            evs.last(),
        )
    }
}

/// Outside a serving run no client is connected.
pub open spec fn engine_inv(s: EngineState) -> bool {
    s.phase != EnginePhase::Serving ==> !s.occupied
}

proof fn lemma_sent_concat(a: Seq<EngineActionView>, b: Seq<EngineActionView>)
    ensures
        sent(a + b) == sent(a) + sent(b),
    decreases b.len(),
{
    if b.len() == 0 {
        assert(a + b =~= a);
        assert(sent(a) + sent(b) =~= sent(a));
    } else {
        lemma_sent_concat(a, b.drop_last());
        assert((a + b).drop_last() =~= a + b.drop_last());
        assert((a + b).last() == b.last());
        match b.last() {
            EngineActionView::Send(m) => {
                assert(sent(a) + sent(b) =~= (sent(a) + sent(b.drop_last())).push(m));
            },
            _ => {},
        }
    }
}

proof fn lemma_bracket_concat(a: Seq<EngineMessageView>, b: Seq<EngineMessageView>, o: bool)
    ensures
        bracket(a + b, o) == match bracket(a, o) {
            Some(o2) => bracket(b, o2),
            None => None,
        },
    decreases b.len(),
{
    if b.len() == 0 {
        assert(a + b =~= a);
    } else {
        lemma_bracket_concat(a, b.drop_last(), o);
        assert((a + b).drop_last() =~= a + b.drop_last());
        assert((a + b).last() == b.last());
        if bracket(a, o) is None {
            assert(bracket(a + b.drop_last(), o) is None);
        }
    }
}

proof fn lemma_sent_one(a: EngineActionView)
    ensures
        sent(seq![a]) == match a {
            EngineActionView::Send(m) => seq![m],
            _ => Seq::empty(),
        },
{
    assert(seq![a].drop_last() =~= Seq::<EngineActionView>::empty());
    assert(sent(Seq::<EngineActionView>::empty()) == Seq::<EngineMessageView>::empty());
    assert(seq![a].last() == a);
    match a {
        EngineActionView::Send(m) => {
            assert(Seq::<EngineMessageView>::empty().push(m) =~= seq![m]);
        },
        _ => {},
    }
}

proof fn lemma_sent_two(a: EngineActionView, b: EngineActionView)
    ensures
        sent(seq![a, b]) == sent(seq![a]) + sent(seq![b]),
{
    assert(seq![a, b] =~= seq![a] + seq![b]);
    lemma_sent_concat(seq![a], seq![b]);
}

proof fn lemma_bracket_one(m: EngineMessageView, o: bool)
    ensures
        bracket(seq![m], o) == match m {
            EngineMessageView::ClientConnected { .. } => if o {
                None
            } else {
                Some(true)
            },
            EngineMessageView::ClientDisconnected => if o {
                Some(false)
            } else {
                None
            },
            EngineMessageView::DeviceConnected { .. } => if o {
                Some(true)
            } else {
                None
            },
            _ => Some(o),
        },
{
    assert(seq![m].drop_last() =~= Seq::<EngineMessageView>::empty());
    assert(bracket(Seq::<EngineMessageView>::empty(), o) == Some(o));
    assert(seq![m].last() == m);
}

proof fn lemma_bracket_empty(o: bool)
    ensures
        bracket(Seq::empty(), o) == Some(o),
{
}

/// Messages sent when a session ends.
proof fn lemma_session_end_sent(s: EngineState, outcome: SessionOutcome)
    ensures
        sent(session_end_actions(s, outcome)) == ({
            let error = match outcome {
                SessionOutcome::Failed { message } => seq![
                    EngineMessageView::EngineError { message: message@ },
                ],
                _ => Seq::empty(),
            };
            let close = if s.occupied {
                seq![EngineMessageView::ClientDisconnected]
            } else {
                Seq::empty()
            };
            let fin = if ends_run(s, outcome) {
                seq![EngineMessageView::EngineStopped]
            } else {
                Seq::empty()
            };
            error + close + fin
        }),
{
    let error = match outcome {
        SessionOutcome::Failed { message } => send(EngineMessageView::EngineError { message: message@ }),
        _ => Seq::empty(),
    };
    let close = if s.occupied {
        send(EngineMessageView::ClientDisconnected) + seq![EngineActionView::StopGuard]
    } else {
        Seq::empty()
    };
    let unadvertise = if s.advertising {
        seq![EngineActionView::StopAdvertising]
    } else {
        Seq::empty()
    };
    let tail1 = seq![EngineActionView::ShutdownServer] + send(EngineMessageView::EngineStopped);
    let tail2 = seq![EngineActionView::Pause, EngineActionView::DisconnectFrontend];
    let after = if ends_run(s, outcome) {
        tail1 + tail2
    } else {
        serve_actions(s)
    };
    lemma_sent_concat(error + close + unadvertise + seq![EngineActionView::CancelSession], after);
    lemma_sent_concat(error + close + unadvertise, seq![EngineActionView::CancelSession]);
    lemma_sent_concat(error + close, unadvertise);
    lemma_sent_concat(error, close);
    lemma_sent_one(EngineActionView::CancelSession);
    lemma_sent_one(EngineActionView::StopAdvertising);
    lemma_sent_one(EngineActionView::StopGuard);
    lemma_sent_one(EngineActionView::Send(EngineMessageView::ClientDisconnected));
    lemma_sent_one(EngineActionView::Send(EngineMessageView::EngineStopped));
    lemma_sent_one(EngineActionView::ShutdownServer);
    lemma_sent_one(EngineActionView::Serve);
    lemma_sent_two(EngineActionView::Pause, EngineActionView::DisconnectFrontend);
    lemma_sent_one(EngineActionView::Pause);
    lemma_sent_one(EngineActionView::DisconnectFrontend);
    lemma_sent_two(EngineActionView::StartAdvertising, EngineActionView::Serve);
    lemma_sent_one(EngineActionView::StartAdvertising);
    if let SessionOutcome::Failed { message } = outcome {
        lemma_sent_one(EngineActionView::Send(EngineMessageView::EngineError { message: message@ }));
    }
    if s.occupied {
        lemma_sent_concat(send(EngineMessageView::ClientDisconnected), seq![EngineActionView::StopGuard]);
    }
    if ends_run(s, outcome) {
        lemma_sent_concat(tail1, tail2);
        lemma_sent_concat(seq![EngineActionView::ShutdownServer], send(EngineMessageView::EngineStopped));
    }
    assert(sent(session_end_actions(s, outcome)) =~= ({
        let error = match outcome {
            SessionOutcome::Failed { message } => seq![
                EngineMessageView::EngineError { message: message@ },
            ],
            _ => Seq::empty(),
        };
        let close = if s.occupied {
            seq![EngineMessageView::ClientDisconnected]
        } else {
            Seq::empty()
        };
        let fin = if ends_run(s, outcome) {
            seq![EngineMessageView::EngineStopped]
        } else {
            Seq::empty()
        };
        error + close + fin
    }));
}

} // verus!

verus! {

proof fn lemma_bracket_neutral(m: EngineMessageView, o: bool)
    requires
        !(m is ClientConnected),
        !(m is ClientDisconnected),
        !(m is DeviceConnected),
    ensures
        bracket(seq![m], o) == Some(o),
{
    lemma_bracket_one(m, o);
}

proof fn lemma_step_bracket(s: EngineState, e: EngineEvent)
    requires
        engine_inv(s),
        device_while_connected(s, e),
    ensures
        bracket(sent(reaction(s, e)), s.occupied) == Some(next_state(s, e).occupied),
        engine_inv(next_state(s, e)),
{
    let o = s.occupied;
    lemma_bracket_empty(o);
    assert(sent(Seq::<EngineActionView>::empty()) == Seq::<EngineMessageView>::empty());
    lemma_sent_one(EngineActionView::Serve);
    lemma_sent_one(EngineActionView::StartAdvertising);
    lemma_sent_two(EngineActionView::StartAdvertising, EngineActionView::Serve);
    match e {
        EngineEvent::Start => {
            if s.phase == EnginePhase::Created {
                let m = EngineMessageView::EngineStarted;
                lemma_sent_one(EngineActionView::Send(m));
                lemma_sent_concat(send(m), serve_actions(s));
                assert(sent(reaction(s, e)) =~= seq![m]);
                lemma_bracket_neutral(m, o);
            }
        },
        EngineEvent::Server(ev) => {
            if s.phase == EnginePhase::Serving {
                match ev {
                    ServerEvent::ClientConnected { client_name } => {
                        if !o {
                            let m = EngineMessageView::ClientConnected {
                                client_name: client_name@,
                            };
                            let mid = if s.advertising {
                                seq![EngineActionView::StopAdvertising]
                            } else {
                                Seq::empty()
                            };
                            lemma_sent_one(EngineActionView::Send(m));
                            lemma_sent_one(EngineActionView::StopAdvertising);
                            lemma_sent_one(EngineActionView::StartGuard);
                            lemma_sent_concat(send(m) + mid, seq![EngineActionView::StartGuard]);
                            lemma_sent_concat(send(m), mid);
                            assert(sent(reaction(s, e)) =~= seq![m]);
                            lemma_bracket_one(m, o);
                        }
                    },
                    ServerEvent::ClientDisconnected => {
                        if o {
                            let m = EngineMessageView::ClientDisconnected;
                            lemma_sent_one(EngineActionView::Send(m));
                            lemma_sent_one(EngineActionView::StopGuard);
                            lemma_sent_concat(send(m), seq![EngineActionView::StopGuard]);
                            assert(sent(reaction(s, e)) =~= seq![m]);
                            lemma_bracket_one(m, o);
                        }
                    },
                    ServerEvent::DeviceAdded { index, name, identifier, display_name } => {
                        let m = EngineMessageView::DeviceConnected {
                            name: name@,
                            index,
                            identifier: identifier@,
                            display_name: display_name@,
                        };
                        lemma_sent_one(EngineActionView::Send(m));
                        lemma_bracket_one(m, o);
                    },
                    ServerEvent::DeviceRemoved { index } => {
                        let m = EngineMessageView::DeviceDisconnected { index };
                        lemma_sent_one(EngineActionView::Send(m));
                        lemma_bracket_neutral(m, o);
                    },
                }
            }
        },
        EngineEvent::ServerEventsEnded => {
            if s.phase == EnginePhase::Serving && o {
                let m = EngineMessageView::ClientDisconnected;
                lemma_sent_one(EngineActionView::Send(m));
                lemma_sent_one(EngineActionView::StopGuard);
                lemma_sent_concat(send(m), seq![EngineActionView::StopGuard]);
                assert(sent(reaction(s, e)) =~= seq![m]);
                lemma_bracket_one(m, o);
            }
        },
        EngineEvent::Frontend(m) => {
            lemma_sent_one(EngineActionView::CancelRoot);
            let v = EngineMessageView::EngineVersion { version: s.version };
            lemma_sent_one(EngineActionView::Send(v));
            lemma_bracket_neutral(v, o);
        },
        EngineEvent::GuardRejected => {
            let m = EngineMessageView::ClientRejected { reason: "Unknown"@ };
            lemma_sent_one(EngineActionView::Send(m));
            lemma_bracket_neutral(m, o);
        },
        EngineEvent::FrontendLost => {},
        EngineEvent::SessionEnded(outcome) => {
            if s.phase == EnginePhase::Serving {
                lemma_session_end_sent(s, outcome);
                let error = match outcome {
                    SessionOutcome::Failed { message } => seq![
                        EngineMessageView::EngineError { message: message@ },
                    ],
                    _ => Seq::empty(),
                };
                let close = if o {
                    seq![EngineMessageView::ClientDisconnected]
                } else {
                    Seq::empty()
                };
                let fin = if ends_run(s, outcome) {
                    seq![EngineMessageView::EngineStopped]
                } else {
                    Seq::empty()
                };
                lemma_bracket_concat(error + close, fin, o);
                lemma_bracket_concat(error, close, o);
                if let SessionOutcome::Failed { message } = outcome {
                    lemma_bracket_neutral(EngineMessageView::EngineError { message: message@ }, o);
                }
                lemma_bracket_one(EngineMessageView::ClientDisconnected, o);
                lemma_bracket_neutral(EngineMessageView::EngineStopped, false);
                lemma_bracket_empty(false);
            }
        },
    }
}

/// Client sessions in what the engine sends are well formed: a client connects
/// only while none is connected, disconnects only while connected, and devices
/// are reported only while a client is connected, provided the server reports
/// devices only then. Each session's `ClientDisconnected` is sent once, and
/// after a session ends no client is left connected.
pub proof fn lemma_sessions_bracketed(s: EngineState, evs: Seq<EngineEvent>)
    requires
        engine_inv(s),
        devices_while_connected(s, evs),
    ensures
        bracket(sent(run_actions(s, evs)), s.occupied) == Some(run_state(s, evs).occupied),
        engine_inv(run_state(s, evs)),
    decreases evs.len(),
{
    if evs.len() == 0 {
        assert(sent(Seq::<EngineActionView>::empty()) == Seq::<EngineMessageView>::empty());
    } else {
        let pre = evs.drop_last();
        let e = evs.last();
        lemma_sessions_bracketed(s, pre);
        let mid = run_state(s, pre);
        lemma_step_bracket(mid, e);
        lemma_sent_concat(run_actions(s, pre), reaction(mid, e));
        lemma_bracket_concat(sent(run_actions(s, pre)), sent(reaction(mid, e)), s.occupied);
    }
}

// ---------------------------------------------------------------------------
// Stopping
// ---------------------------------------------------------------------------
/// How many `EngineStopped` messages a stream holds.
pub open spec fn count_stopped(msgs: Seq<EngineMessageView>) -> nat
    decreases msgs.len(),
{
    if msgs.len() == 0 {
        0
    } else {
        count_stopped(msgs.drop_last()) + if msgs.last() is EngineStopped {
            1nat
        } else {
            0nat
        }
    }
}

/// Asking to stop twice is asking once: the same state, and the same actions
/// when the frontend asks.
pub proof fn lemma_stop_idempotent(s: EngineState)
    ensures
        stopped(stopped(s)) == stopped(s),
        next_state(next_state(s, EngineEvent::Frontend(IntifaceMessage::Stop)), EngineEvent::Frontend(IntifaceMessage::Stop))
            == next_state(s, EngineEvent::Frontend(IntifaceMessage::Stop)),
        reaction(next_state(s, EngineEvent::Frontend(IntifaceMessage::Stop)), EngineEvent::Frontend(IntifaceMessage::Stop))
            == reaction(s, EngineEvent::Frontend(IntifaceMessage::Stop)),
{
}

proof fn lemma_count_concat(a: Seq<EngineMessageView>, b: Seq<EngineMessageView>)
    ensures
        count_stopped(a + b) == count_stopped(a) + count_stopped(b),
    decreases b.len(),
{
    if b.len() == 0 {
        assert(a + b =~= a);
    } else {
        lemma_count_concat(a, b.drop_last());
        assert((a + b).drop_last() =~= a + b.drop_last());
        assert((a + b).last() == b.last());
    }
}

proof fn lemma_count_one(m: EngineMessageView)
    ensures
        count_stopped(seq![m]) == if m is EngineStopped {
            1nat
        } else {
            0nat
        },
{
    assert(seq![m].drop_last() =~= Seq::<EngineMessageView>::empty());
    assert(count_stopped(Seq::<EngineMessageView>::empty()) == 0);
    assert(seq![m].last() == m);
}

proof fn lemma_step_stopped(s: EngineState, e: EngineEvent)
    ensures
        count_stopped(sent(reaction(s, e))) == if s.phase != EnginePhase::Stopped && next_state(
            s,
            e,
        ).phase == EnginePhase::Stopped {
            1nat
        } else {
            0nat
        },
        s.phase == EnginePhase::Stopped ==> next_state(s, e).phase == EnginePhase::Stopped,
{
    assert(sent(Seq::<EngineActionView>::empty()) == Seq::<EngineMessageView>::empty());
    assert(count_stopped(Seq::<EngineMessageView>::empty()) == 0);
    lemma_sent_one(EngineActionView::Serve);
    lemma_sent_one(EngineActionView::StartAdvertising);
    lemma_sent_two(EngineActionView::StartAdvertising, EngineActionView::Serve);
    match e {
        EngineEvent::Start => {
            if s.phase == EnginePhase::Created {
                let m = EngineMessageView::EngineStarted;
                lemma_sent_one(EngineActionView::Send(m));
                lemma_sent_concat(send(m), serve_actions(s));
                assert(sent(reaction(s, e)) =~= seq![m]);
                lemma_count_one(m);
            }
        },
        EngineEvent::Server(ev) => {
            if s.phase == EnginePhase::Serving {
                match ev {
                    ServerEvent::ClientConnected { client_name } => {
                        if !s.occupied {
                            let m = EngineMessageView::ClientConnected {
                                client_name: client_name@,
                            };
                            let mid = if s.advertising {
                                seq![EngineActionView::StopAdvertising]
                            } else {
                                Seq::empty()
                            };
                            lemma_sent_one(EngineActionView::Send(m));
                            lemma_sent_one(EngineActionView::StopAdvertising);
                            lemma_sent_one(EngineActionView::StartGuard);
                            lemma_sent_concat(send(m) + mid, seq![EngineActionView::StartGuard]);
                            lemma_sent_concat(send(m), mid);
                            assert(sent(reaction(s, e)) =~= seq![m]);
                            lemma_count_one(m);
                        }
                    },
                    ServerEvent::ClientDisconnected => {
                        if s.occupied {
                            let m = EngineMessageView::ClientDisconnected;
                            lemma_sent_one(EngineActionView::Send(m));
                            lemma_sent_one(EngineActionView::StopGuard);
                            lemma_sent_concat(send(m), seq![EngineActionView::StopGuard]);
                            assert(sent(reaction(s, e)) =~= seq![m]);
                            lemma_count_one(m);
                        }
                    },
                    ServerEvent::DeviceAdded { index, name, identifier, display_name } => {
                        let m = EngineMessageView::DeviceConnected {
                            name: name@,
                            index,
                            identifier: identifier@,
                            display_name: display_name@,
                        };
                        lemma_sent_one(EngineActionView::Send(m));
                        lemma_count_one(m);
                    },
                    ServerEvent::DeviceRemoved { index } => {
                        let m = EngineMessageView::DeviceDisconnected { index };
                        lemma_sent_one(EngineActionView::Send(m));
                        lemma_count_one(m);
                    },
                }
            }
        },
        EngineEvent::ServerEventsEnded => {
            if s.phase == EnginePhase::Serving && s.occupied {
                let m = EngineMessageView::ClientDisconnected;
                lemma_sent_one(EngineActionView::Send(m));
                lemma_sent_one(EngineActionView::StopGuard);
                lemma_sent_concat(send(m), seq![EngineActionView::StopGuard]);
                assert(sent(reaction(s, e)) =~= seq![m]);
                lemma_count_one(m);
            }
        },
        EngineEvent::Frontend(m) => {
            lemma_sent_one(EngineActionView::CancelRoot);
            let v = EngineMessageView::EngineVersion { version: s.version };
            lemma_sent_one(EngineActionView::Send(v));
            lemma_count_one(v);
        },
        EngineEvent::GuardRejected => {
            let m = EngineMessageView::ClientRejected { reason: "Unknown"@ };
            lemma_sent_one(EngineActionView::Send(m));
            lemma_count_one(m);
        },
        EngineEvent::FrontendLost => {},
        EngineEvent::SessionEnded(outcome) => {
            if s.phase == EnginePhase::Serving {
                lemma_session_end_sent(s, outcome);
                let error = match outcome {
                    SessionOutcome::Failed { message } => seq![
                        EngineMessageView::EngineError { message: message@ },
                    ],
                    _ => Seq::empty(),
                };
                let close = if s.occupied {
                    seq![EngineMessageView::ClientDisconnected]
                } else {
                    Seq::empty()
                };
                let fin = if ends_run(s, outcome) {
                    seq![EngineMessageView::EngineStopped]
                } else {
                    Seq::empty()
                };
                lemma_count_concat(error + close, fin);
                lemma_count_concat(error, close);
                if let SessionOutcome::Failed { message } = outcome {
                    lemma_count_one(EngineMessageView::EngineError { message: message@ });
                }
                lemma_count_one(EngineMessageView::ClientDisconnected);
                lemma_count_one(EngineMessageView::EngineStopped);
            }
        },
    }
}

/// `EngineStopped` is sent once in a run: when it stops, and never after.
pub proof fn lemma_engine_stopped_once(s: EngineState, evs: Seq<EngineEvent>)
    ensures
        count_stopped(sent(run_actions(s, evs))) == if s.phase != EnginePhase::Stopped
            && run_state(s, evs).phase == EnginePhase::Stopped {
            1nat
        } else {
            0nat
        },
        s.phase == EnginePhase::Stopped ==> run_state(s, evs).phase == EnginePhase::Stopped,
    decreases evs.len(),
{
    if evs.len() == 0 {
        assert(sent(Seq::<EngineActionView>::empty()) == Seq::<EngineMessageView>::empty());
        assert(count_stopped(Seq::<EngineMessageView>::empty()) == 0);
    } else {
        let pre = evs.drop_last();
        let e = evs.last();
        lemma_engine_stopped_once(s, pre);
        let mid = run_state(s, pre);
        lemma_step_stopped(mid, e);
        lemma_sent_concat(run_actions(s, pre), reaction(mid, e));
        lemma_count_concat(sent(run_actions(s, pre)), sent(reaction(mid, e)));
    }
}

} // verus!

verus! {

/// Whether the options ask to crash the main task once serving, to exercise
/// crash reporting. The driver panics where this holds.
pub fn maybe_crash_main_thread(options: &crate::options::EngineOptions) -> (r: bool)
    ensures
        r == options.crash_main_thread,
{
    options.crash_main_thread
}

/// Whether the options ask to crash a spawned task, to exercise crash reporting.
pub fn maybe_crash_task_thread(options: &crate::options::EngineOptions) -> (r: bool)
    ensures
        r == options.crash_task_thread,
{
    options.crash_task_thread
}

} // verus!

verus! {

/// Every session closes what it opened: a run from a state with no client,
/// whose last event ends a serving session, leaves no client connected in what
/// it sent, so each `ClientConnected` met exactly one `ClientDisconnected`.
pub proof fn lemma_session_closed_at_end(s: EngineState, evs: Seq<EngineEvent>)
    requires
        engine_inv(s),
        !s.occupied,
        devices_while_connected(s, evs),
        evs.len() > 0,
        evs.last() is SessionEnded,
        run_state(s, evs.drop_last()).phase == EnginePhase::Serving,
    ensures
        bracket(sent(run_actions(s, evs)), false) == Some(false),
{
    lemma_sessions_bracketed(s, evs);
}

} // verus!

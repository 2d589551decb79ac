//! The mediator as a mathematical state machine.
//!
//! Every executable transition of the mediator is specified by a function of
//! this module: it maps the mediator's view and the reported outcome to the
//! next view and the sequence of actions the driver must perform, in order.

use vstd::prelude::*;
use crate::addr::SocketAddr;
use crate::error::NatError;
use crate::hole_punch::{
    HolePunchInfo, HolePunchMediator, NatTimer, Phase, TimerRequest, Transport,
    HOLE_PUNCH_TIMEOUT_SEC, RENDEZVOUS_TIMEOUT_SEC, TIMER_ID,
};
use mio::tcp::TcpStream;
use mio::timer::Timeout;
use mio::udp::UdpSocket;
use mio::Token;

verus! {

/// The addresses gathered per transport, as sequences.
pub struct RendezvousInfoView {
    pub udp: Seq<SocketAddr>,
    pub tcp: Seq<SocketAddr>,
}

impl RendezvousInfoView {
    /// No address for either transport.
    pub open spec fn empty() -> RendezvousInfoView {
        RendezvousInfoView { udp: Seq::empty(), tcp: Seq::empty() }
    }

    /// At least one transport has at least one address.
    pub open spec fn has_address(self) -> bool {
        self.udp.len() > 0 || self.tcp.len() > 0
    }

    /// The same info with the addresses of one transport replaced.
    pub open spec fn with(self, transport: Transport, addrs: Seq<SocketAddr>) -> RendezvousInfoView {
        match transport {
            Transport::Udp => RendezvousInfoView { udp: addrs, tcp: self.tcp },
            Transport::Tcp => RendezvousInfoView { udp: self.udp, tcp: addrs },
        }
    }
}

/// The phase of a mediator together with what the phase holds.
#[allow(inconsistent_fields)]
pub enum StateView {
    /// Constructed, not yet started.
    Idle,
    /// Waiting for the transports' external addresses.
    Rendezvous {
        info: RendezvousInfoView,
        timeout: Timeout,
        udp_reported: bool,
        tcp_reported: bool,
    },
    /// Rendezvous resolved; waiting for the trigger of the punch phase.
    ReadyToHolePunch,
    /// Waiting for the transports' sockets.
    HolePunching { info: HolePunchInfo, timeout: Timeout },
    /// Deregistered; nothing is held any more.
    Terminated,
}

impl StateView {
    /// The position of the phase in the mediator's life.
    pub open spec fn rank(self) -> nat {
        match self {
            StateView::Idle => 0,
            StateView::Rendezvous { .. } => 1,
            StateView::ReadyToHolePunch => 2,
            StateView::HolePunching { .. } => 3,
            StateView::Terminated => 4,
        }
    }

    /// The phase, without what it holds.
    pub open spec fn phase(self) -> Phase {
        match self {
            StateView::Idle => Phase::Idle,
            StateView::Rendezvous { .. } => Phase::Rendezvous,
            StateView::ReadyToHolePunch => Phase::ReadyToHolePunch,
            StateView::HolePunching { .. } => Phase::HolePunching,
            StateView::Terminated => Phase::Terminated,
        }
    }

    /// The handle of the phase timer, where the phase has one.
    pub open spec fn timer(self) -> Option<Timeout> {
        match self {
            StateView::Rendezvous { timeout, .. } => Some(timeout),
            StateView::HolePunching { timeout, .. } => Some(timeout),
            _ => None,
        }
    }
}

/// One thing the driver has to do for the mediator.
pub enum ActionView {
    /// Remove the state registered under the token.
    RemoveState(Token),
    /// Cancel the timer behind the handle.
    CancelTimeout(Timeout),
    /// Let go of the transport's child without terminating it.
    ReleaseChild(Transport),
    /// Take the transport's child out of the driver and terminate it.
    TerminateChild(Transport),
    /// Invoke the rendezvous continuation; success carries the token of the
    /// fresh handle and the merged addresses.
    RendezvousDone(Result<(Token, RendezvousInfoView), NatError>),
    /// Invoke the hole-punch continuation.
    HolePunchDone(Result<HolePunchInfo, NatError>),
}

/// The kinds of action, without what an action carries.
pub enum ActionKind {
    RemoveState,
    CancelTimeout,
    ReleaseChild,
    TerminateChild,
    RendezvousDone,
    HolePunchDone,
}

impl ActionView {
    /// The kind of the action.
    pub open spec fn kind(self) -> ActionKind {
        match self {
            ActionView::RemoveState(_) => ActionKind::RemoveState,
            ActionView::CancelTimeout(_) => ActionKind::CancelTimeout,
            ActionView::ReleaseChild(_) => ActionKind::ReleaseChild,
            ActionView::TerminateChild(_) => ActionKind::TerminateChild,
            ActionView::RendezvousDone(_) => ActionKind::RendezvousDone,
            ActionView::HolePunchDone(_) => ActionKind::HolePunchDone,
        }
    }
}

/// One if the condition holds, zero if it does not.
pub open spec fn one(condition: bool) -> nat {
    if condition {
        1
    } else {
        0
    }
}

/// How many of the actions are of the given kind.
pub open spec fn count(actions: Seq<ActionView>, kind: ActionKind) -> nat
    decreases actions.len(),
{
    if actions.len() == 0 {
        0
    } else {
        count(actions.drop_last(), kind) + if actions.last().kind() == kind {
            1nat
        } else {
            0nat
        }
    }
}

/// One transition of a mediator, with the outcome it was taken on.
#[allow(inconsistent_fields)]
pub enum Event {
    /// `start`.
    Start { timeout: Timeout, udp_started: bool, tcp_started: bool },
    /// `finish_start`.
    FinishStart { registered: bool },
    /// `handle_udp_rendezvous` or `handle_tcp_rendezvous`.
    Rendezvous { transport: Transport, outcome: Option<Seq<SocketAddr>> },
    /// `punch_hole`.
    PunchHole { timeout: Result<Timeout, NatError>, udp_started: bool, tcp_started: bool },
    /// `handle_udp_hole_punch`.
    UdpHolePunch { outcome: Option<(UdpSocket, Token)> },
    /// `handle_tcp_hole_punch`.
    TcpHolePunch { outcome: Option<(TcpStream, Token)> },
    /// `timeout`.
    Timeout { timer_id: u8, udp: Option<Seq<SocketAddr>>, tcp: Option<Seq<SocketAddr>> },
    /// `terminate`.
    Terminate,
}

impl Event {
    /// The event is a termination asked for from outside the mediator:
    /// `terminate` itself, or the end of a start that could not register.
    pub open spec fn terminates(self) -> bool {
        match self {
            Event::Terminate => true,
            Event::FinishStart { registered } => !registered,
            _ => false,
        }
    }
}

/// No event of the history is a termination asked for from outside.
pub open spec fn undisturbed(events: Seq<Event>) -> bool {
    forall|i: int| 0 <= i < events.len() ==> !(#[trigger] events[i]).terminates()
}

/// How many of the events are requests to begin the punch phase.
pub open spec fn punch_requests(events: Seq<Event>) -> nat
    decreases events.len(),
{
    if events.len() == 0 {
        0
    } else {
        punch_requests(events.drop_last()) + if events.last() is PunchHole {
            1nat
        } else {
            0nat
        }
    }
}

/// A mediator: its token, its phase and which transports still have a child.
pub struct MediatorView {
    pub token: Token,
    pub state: StateView,
    pub udp_child: bool,
    pub tcp_child: bool,
}

/// The result of a transition: the next mediator and the actions, in order.
pub struct Step {
    pub next: MediatorView,
    pub actions: Seq<ActionView>,
}

impl MediatorView {
    /// Whether the transport still has a child.
    pub open spec fn has_child(self, transport: Transport) -> bool {
        match transport {
            Transport::Udp => self.udp_child,
            Transport::Tcp => self.tcp_child,
        }
    }

    /// No transport has a child.
    pub open spec fn childless(self) -> bool {
        !self.udp_child && !self.tcp_child
    }

    /// The same mediator in another phase.
    pub open spec fn in_state(self, state: StateView) -> MediatorView {
        MediatorView { state, ..self }
    }

    /// The same mediator without the transport's child.
    pub open spec fn without_child(self, transport: Transport) -> MediatorView {
        match transport {
            Transport::Udp => MediatorView { udp_child: false, ..self },
            Transport::Tcp => MediatorView { tcp_child: false, ..self },
        }
    }

    /// During rendezvous: the transport has a child that has not reported.
    pub open spec fn awaits(self, transport: Transport) -> bool {
        match self.state {
            StateView::Rendezvous { udp_reported, tcp_reported, .. } => match transport {
                Transport::Udp => self.udp_child && !udp_reported,
                Transport::Tcp => self.tcp_child && !tcp_reported,
            },
            _ => false,
        }
    }

    /// What holds of a mediator between any two transitions.
    ///
    /// Before the start and after termination no child is held. A mediator
    /// that is still waiting has something to wait for: during rendezvous a
    /// child that has not reported, during hole punching a child at all.
    pub open spec fn wf(self) -> bool {
        match self.state {
            StateView::Idle => self.childless(),
            StateView::Rendezvous { .. } => self.awaits(Transport::Udp) || self.awaits(Transport::Tcp),
            StateView::ReadyToHolePunch => true,
            StateView::HolePunching { .. } => !self.childless(),
            StateView::Terminated => self.childless(),
        }
    }

    /// The action that releases the transport's child, if it has one.
    pub open spec fn release(self, transport: Transport) -> Seq<ActionView> {
        if self.has_child(transport) {
            seq![ActionView::ReleaseChild(transport)]
        } else {
            seq![]
        }
    }

    /// The action that cancels the phase timer, if the phase has one.
    pub open spec fn cancel_timer(self) -> Seq<ActionView> {
        match self.state.timer() {
            Some(timeout) => seq![ActionView::CancelTimeout(timeout)],
            None => seq![],
        }
    }

    /// The actions that terminate the remaining children, UDP first.
    pub open spec fn terminate_children(self) -> Seq<ActionView> {
        let udp = if self.udp_child {
            seq![ActionView::TerminateChild(Transport::Udp)]
        } else {
            seq![]
        };
        let tcp = if self.tcp_child {
            seq![ActionView::TerminateChild(Transport::Tcp)]
        } else {
            seq![]
        };
        udp + tcp
    }

    /// The mediator after termination.
    pub open spec fn terminated(self) -> MediatorView {
        MediatorView {
            token: self.token,
            state: StateView::Terminated,
            udp_child: false,
            tcp_child: false,
        }
    }

    /// Termination: deregister, cancel the phase timer, terminate the
    /// remaining children. A terminated mediator stays as it is.
    pub open spec fn terminate(self) -> Step {
        if self.state is Terminated {
            Step { next: self, actions: seq![] }
        } else {
            Step {
                next: self.terminated(),
                actions: seq![ActionView::RemoveState(self.token)] + self.cancel_timer()
                    + self.terminate_children(),
            }
        }
    }

    /// A transition that changes nothing and asks for nothing.
    pub open spec fn stay(self) -> Step {
        Step { next: self, actions: seq![] }
    }

    /// The timer to arm for the rendezvous phase. Only a mediator that has
    /// not started asks for one; any other refuses with `InvalidState`.
    pub open spec fn rendezvous_timer(self, timeout_sec: Option<u64>) -> Result<TimerRequest, NatError> {
        if self.state is Idle {
            Ok(
                TimerRequest {
                    secs: rendezvous_secs(timeout_sec),
                    timer: NatTimer { associated_nat_state: self.token, timer_id: TIMER_ID },
                },
            )
        } else {
            Err(NatError::InvalidState)
        }
    }

    /// Why a start is refused, if it is: the mediator has started before, or
    /// no transport could be started.
    pub open spec fn start_error(self, udp_started: bool, tcp_started: bool) -> Option<NatError> {
        if !(self.state is Idle) {
            Some(NatError::InvalidState)
        } else if !udp_started && !tcp_started {
            Some(NatError::RendezvousFailed)
        } else {
            None
        }
    }

    /// The mediator after an accepted start: in rendezvous with nothing
    /// gathered, holding the armed timer and a child per started transport.
    pub open spec fn started(self, timeout: Timeout, udp_started: bool, tcp_started: bool) -> MediatorView {
        MediatorView {
            token: self.token,
            state: StateView::Rendezvous {
                info: RendezvousInfoView::empty(),
                timeout,
                udp_reported: false,
                tcp_reported: false,
            },
            udp_child: udp_started,
            tcp_child: tcp_started,
        }
    }

    /// The end of a start: a mediator that could not be registered is
    /// terminated, a registered one is left alone.
    pub open spec fn finish_start(self, registered: bool) -> Step {
        if registered {
            self.stay()
        } else {
            self.terminate()
        }
    }

    /// During rendezvous, the mediator after taking note of one transport's
    /// report and before deciding: a success replaces the transport's
    /// addresses and marks it as reported, a failure removes its child.
    pub open spec fn merged(self, transport: Transport, outcome: Option<Seq<SocketAddr>>) -> MediatorView {
        match self.state {
            StateView::Rendezvous { info, timeout, udp_reported, tcp_reported } => match outcome {
                Some(addrs) => self.in_state(
                    StateView::Rendezvous {
                        info: info.with(transport, addrs),
                        timeout,
                        udp_reported: udp_reported || transport == Transport::Udp,
                        tcp_reported: tcp_reported || transport == Transport::Tcp,
                    },
                ),
                None => self.without_child(transport),
            },
            _ => self,
        }
    }

    /// The decision taken after every rendezvous report. While a child has
    /// not reported, wait. Otherwise succeed if any address was gathered:
    /// cancel the timer and hand out the handle with the merged addresses.
    /// Otherwise fail: report `RendezvousFailed`, then terminate.
    pub open spec fn resolve_rendezvous(self) -> Step {
        match self.state {
            StateView::Rendezvous { info, timeout, .. } => {
                if self.awaits(Transport::Udp) || self.awaits(Transport::Tcp) {
                    self.stay()
                } else if info.has_address() {
                    Step {
                        next: self.in_state(StateView::ReadyToHolePunch),
                        actions: seq![
                            ActionView::CancelTimeout(timeout),
                            ActionView::RendezvousDone(Ok((self.token, info))),
                        ],
                    }
                } else {
                    Step {
                        next: self.terminate().next,
                        actions: seq![ActionView::RendezvousDone(Err(NatError::RendezvousFailed))]
                            + self.terminate().actions,
                    }
                }
            },
            _ => self.stay(),
        }
    }

    /// One transport's rendezvous report: outside rendezvous it is ignored;
    /// during rendezvous a failing transport's child is released, the report
    /// is merged and the decision is taken.
    pub open spec fn rendezvous_report(self, transport: Transport, outcome: Option<Seq<SocketAddr>>) -> Step {
        if self.state is Rendezvous {
            let released = if outcome is None {
                self.release(transport)
            } else {
                seq![]
            };
            let decided = self.merged(transport, outcome).resolve_rendezvous();
            Step { next: decided.next, actions: released + decided.actions }
        } else {
            self.stay()
        }
    }

    /// What the punch phase needs before it can begin, if the mediator is
    /// ready for it: the timer to arm, and for each transport that still has
    /// a child the peer addresses to punch towards.
    pub open spec fn hole_punch_request(self, peers: RendezvousInfoView, timeout_sec: Option<u64>) -> Result<PunchRequestView, NatError> {
        if self.state is ReadyToHolePunch {
            Ok(
                PunchRequestView {
                    secs: hole_punch_secs(timeout_sec),
                    token: self.token,
                    timer_id: TIMER_ID,
                    udp: if self.udp_child {
                        Some(peers.udp)
                    } else {
                        None
                    },
                    tcp: if self.tcp_child {
                        Some(peers.tcp)
                    } else {
                        None
                    },
                },
            )
        } else {
            Err(NatError::HolePunchFailed)
        }
    }

    /// The actions that release the children whose punch did not start.
    pub open spec fn release_unstarted(self, udp_started: bool, tcp_started: bool) -> Seq<ActionView> {
        let udp = if self.udp_child && !udp_started {
            seq![ActionView::ReleaseChild(Transport::Udp)]
        } else {
            seq![]
        };
        let tcp = if self.tcp_child && !tcp_started {
            seq![ActionView::ReleaseChild(Transport::Tcp)]
        } else {
            seq![]
        };
        udp + tcp
    }

    /// The mediator as it enters the punch phase: nothing gathered, the
    /// armed timer held, and only the children kept whose punch started.
    pub open spec fn punching(self, timeout: Timeout, udp_started: bool, tcp_started: bool) -> MediatorView {
        MediatorView {
            token: self.token,
            state: StateView::HolePunching { info: HolePunchInfo::empty(), timeout },
            udp_child: self.udp_child && udp_started,
            tcp_child: self.tcp_child && tcp_started,
        }
    }

    /// The begin of the punch phase. Unless the mediator is ready for it,
    /// the request fails with `HolePunchFailed` and nothing changes. If the
    /// timer could not be armed, the mediator terminates and the timer's
    /// error is reported. Children whose punch did not start are released;
    /// if none is left, the mediator terminates and reports
    /// `HolePunchFailed`; otherwise it waits for the children.
    pub open spec fn punch_hole(self, timeout: Result<Timeout, NatError>, udp_started: bool, tcp_started: bool) -> Step {
        if !(self.state is ReadyToHolePunch) {
            Step {
                next: self,
                actions: seq![ActionView::HolePunchDone(Err(NatError::HolePunchFailed))],
            }
        } else {
            match timeout {
                Err(e) => Step {
                    next: self.terminate().next,
                    actions: self.terminate().actions + seq![ActionView::HolePunchDone(Err(e))],
                },
                Ok(timeout) => {
                    let punching = self.punching(timeout, udp_started, tcp_started);
                    let released = self.release_unstarted(udp_started, tcp_started);
                    if punching.childless() {
                        Step {
                            next: punching.terminate().next,
                            actions: released + punching.terminate().actions
                                + seq![ActionView::HolePunchDone(Err(NatError::HolePunchFailed))],
                        }
                    } else {
                        Step { next: punching, actions: released }
                    }
                },
            }
        }
    }

    /// During hole punching, the mediator after the UDP child's report: the
    /// child is gone, and a socket it brought is kept.
    pub open spec fn punched_udp(self, outcome: Option<(UdpSocket, Token)>) -> MediatorView {
        match self.state {
            StateView::HolePunching { info, timeout } => MediatorView {
                token: self.token,
                state: StateView::HolePunching {
                    info: match outcome {
                        Some(socket) => HolePunchInfo { tcp: info.tcp, udp: Some(socket) },
                        None => info,
                    },
                    timeout,
                },
                udp_child: false,
                tcp_child: self.tcp_child,
            },
            _ => self,
        }
    }

    /// During hole punching, the mediator after the TCP child's report.
    pub open spec fn punched_tcp(self, outcome: Option<(TcpStream, Token)>) -> MediatorView {
        match self.state {
            StateView::HolePunching { info, timeout } => MediatorView {
                token: self.token,
                state: StateView::HolePunching {
                    info: match outcome {
                        Some(socket) => HolePunchInfo { tcp: Some(socket), udp: info.udp },
                        None => info,
                    },
                    timeout,
                },
                udp_child: self.udp_child,
                tcp_child: false,
            },
            _ => self,
        }
    }

    /// The end of the punch phase, whatever is still outstanding: report the
    /// gathered sockets if there is one, `HolePunchFailed` if there is none,
    /// then terminate.
    pub open spec fn conclude_hole_punch(self) -> Step {
        match self.state {
            StateView::HolePunching { info, .. } => Step {
                next: self.terminate().next,
                actions: seq![
                    ActionView::HolePunchDone(
                        if info.has_socket() {
                            Ok(info)
                        } else {
                            Err(NatError::HolePunchFailed)
                        },
                    ),
                ] + self.terminate().actions,
            },
            _ => self.stay(),
        }
    }

    /// The decision taken after every hole-punch report: wait while a child
    /// is left, conclude once none is.
    pub open spec fn resolve_hole_punch(self) -> Step {
        if self.state is HolePunching && self.childless() {
            self.conclude_hole_punch()
        } else {
            self.stay()
        }
    }

    /// The UDP child's hole-punch report: ignored outside the punch phase;
    /// within it the child is released, its socket kept, the decision taken.
    pub open spec fn udp_hole_punch_report(self, outcome: Option<(UdpSocket, Token)>) -> Step {
        if self.state is HolePunching {
            let decided = self.punched_udp(outcome).resolve_hole_punch();
            Step { next: decided.next, actions: self.release(Transport::Udp) + decided.actions }
        } else {
            self.stay()
        }
    }

    /// The TCP child's hole-punch report.
    pub open spec fn tcp_hole_punch_report(self, outcome: Option<(TcpStream, Token)>) -> Step {
        if self.state is HolePunching {
            let decided = self.punched_tcp(outcome).resolve_hole_punch();
            Step { next: decided.next, actions: self.release(Transport::Tcp) + decided.actions }
        } else {
            self.stay()
        }
    }

    /// Whether the transport's child is asked for its rendezvous-timeout
    /// outcome when the timer expires.
    pub open spec fn asks_on_timeout(self, timer_id: u8, transport: Transport) -> bool {
        timer_id == TIMER_ID && self.state is Rendezvous && self.has_child(transport)
    }

    /// The expiry of a timer. A timer other than the mediator's own is
    /// ignored. During rendezvous each child that is still held is asked for
    /// what it has, UDP first, and its answer is treated as its report; a
    /// child without an answer counts as failed. During hole punching the
    /// phase is concluded with what was gathered. In any other phase the
    /// mediator terminates.
    pub open spec fn timeout(self, timer_id: u8, udp: Option<Seq<SocketAddr>>, tcp: Option<Seq<SocketAddr>>) -> Step {
        if timer_id != TIMER_ID {
            self.stay()
        } else {
            match self.state {
                StateView::Rendezvous { .. } => {
                    let first = if self.udp_child {
                        self.rendezvous_report(Transport::Udp, udp)
                    } else {
                        self.stay()
                    };
                    let second = if first.next.tcp_child {
                        first.next.rendezvous_report(Transport::Tcp, tcp)
                    } else {
                        first.next.stay()
                    };
                    Step { next: second.next, actions: first.actions + second.actions }
                },
                StateView::HolePunching { .. } => self.conclude_hole_punch(),
                _ => self.terminate(),
            }
        }
    }

    /// The start as a transition: a refused start changes nothing, and no
    /// start asks for an action.
    pub open spec fn start(self, timeout: Timeout, udp_started: bool, tcp_started: bool) -> Step {
        if self.start_error(udp_started, tcp_started) is Some {
            self.stay()
        } else {
            Step { next: self.started(timeout, udp_started, tcp_started), actions: seq![] }
        }
    }

    /// The transition that the event stands for.
    pub open spec fn step(self, event: Event) -> Step {
        match event {
            Event::Start { timeout, udp_started, tcp_started } => self.start(
                timeout,
                udp_started,
                tcp_started,
            ),
            Event::FinishStart { registered } => self.finish_start(registered),
            Event::Rendezvous { transport, outcome } => self.rendezvous_report(transport, outcome),
            Event::PunchHole { timeout, udp_started, tcp_started } => self.punch_hole(
                timeout,
                udp_started,
                tcp_started,
            ),
            Event::UdpHolePunch { outcome } => self.udp_hole_punch_report(outcome),
            Event::TcpHolePunch { outcome } => self.tcp_hole_punch_report(outcome),
            Event::Timeout { timer_id, udp, tcp } => self.timeout(timer_id, udp, tcp),
            Event::Terminate => self.terminate(),
        }
    }

    /// The transitions of a whole history, taken one after the other: the
    /// mediator at its end, and all actions asked for on the way.
    pub open spec fn run(self, events: Seq<Event>) -> Step
        decreases events.len(),
    {
        if events.len() == 0 {
            self.stay()
        } else {
            let before = self.run(events.drop_last());
            let last = before.next.step(events.last());
            Step { next: last.next, actions: before.actions + last.actions }
        }
    }
}

/// What the driver needs to begin the punch phase.
pub struct PunchRequestView {
    /// The duration of the phase timer, in seconds.
    pub secs: u64,
    /// The token the timer belongs to.
    pub token: Token,
    /// The identifier the timer fires with.
    pub timer_id: u8,
    /// The peer's UDP addresses, if the UDP child is to punch.
    pub udp: Option<Seq<SocketAddr>>,
    /// The peer's TCP addresses, if the TCP child is to punch.
    pub tcp: Option<Seq<SocketAddr>>,
}

/// What a handle asks the reactor's thread to do.
pub enum HandleRequestView {
    /// Begin the punch phase of the mediator registered under the token.
    HolePunch { mediator: Token, peers: RendezvousInfoView },
    /// Terminate the mediator registered under the token, if there is one.
    Terminate { mediator: Token },
}

/// The answer to a trigger: without a mediator under the token it fails
/// with `InvalidState`, with one the mediator decides.
pub open spec fn start_hole_punch(found: Option<&HolePunchMediator>, peers: RendezvousInfoView, timeout_sec: Option<u64>) -> Result<PunchRequestView, NatError> {
    match found {
        Some(mediator) => mediator@.hole_punch_request(peers, timeout_sec),
        None => Err(NatError::InvalidState),
    }
}

/// The duration of the rendezvous timer: the configured one, or the default.
pub open spec fn rendezvous_secs(configured: Option<u64>) -> u64 {
    match configured {
        Some(secs) => secs,
        None => RENDEZVOUS_TIMEOUT_SEC,
    }
}

/// The duration of the hole-punch timer: the configured one, or the default.
pub open spec fn hole_punch_secs(configured: Option<u64>) -> u64 {
    match configured {
        Some(secs) => secs,
        None => HOLE_PUNCH_TIMEOUT_SEC,
    }
}

/// What a transport's rendezvous report says: its addresses, or failure.
pub open spec fn addresses(res: Result<Vec<SocketAddr>, NatError>) -> Option<Seq<SocketAddr>> {
    match res {
        Ok(addrs) => Some(addrs@),
        Err(_) => None,
    }
}

/// What a child answered when the rendezvous timer expired; a child that
/// was not asked counts as failed.
pub open spec fn answer(res: Option<Result<Vec<SocketAddr>, NatError>>) -> Option<Seq<SocketAddr>> {
    match res {
        Some(res) => addresses(res),
        None => None,
    }
}

/// What a transport's hole-punch report says: its socket, or failure.
pub open spec fn socket<S>(res: Result<(S, Token), NatError>) -> Option<(S, Token)> {
    match res {
        Ok(socket) => Some(socket),
        Err(_) => None,
    }
}

} // verus!

//! The hole-punch mediator and the values it exchanges with its driver.

use vstd::prelude::*;
use crate::addr::SocketAddr;
use crate::error::NatError;
use crate::laws::law_step_keeps_well_formed;
use crate::model::{
    addresses, answer, socket, start_hole_punch, ActionView, Event, HandleRequestView,
    MediatorView, PunchRequestView, RendezvousInfoView, StateView,
};
use mio::tcp::TcpStream;
use mio::timer::Timeout;
use mio::udp::UdpSocket;
use mio::Token;

verus! {

/// The identifier of the mediator's only timer.
pub const TIMER_ID: u8 = 0;

/// The duration of the rendezvous phase in seconds, unless configured.
pub const RENDEZVOUS_TIMEOUT_SEC: u64 = 8;

/// The duration of the hole-punch phase in seconds, unless configured.
pub const HOLE_PUNCH_TIMEOUT_SEC: u64 = 15;

/// The kinds of transport a mediator coordinates.
#[derive(Clone, Copy, Debug, PartialEq, Eq, Structural)]
pub enum Transport {
    Udp,
    Tcp,
}

/// The phases of a mediator's life, in the order in which they are passed.
#[derive(Clone, Copy, Debug, PartialEq, Eq, Structural)]
pub enum Phase {
    /// Constructed, not yet started.
    Idle,
    /// Waiting for the transports' external addresses.
    Rendezvous,
    /// Rendezvous resolved; waiting for the trigger of the punch phase.
    ReadyToHolePunch,
    /// Waiting for the transports' sockets.
    HolePunching,
    /// Deregistered; nothing is held any more.
    Terminated,
}

/// The externally observable addresses of this host, per transport.
#[derive(Debug)]
pub struct RendezvousInfo {
    pub udp: Vec<SocketAddr>,
    pub tcp: Vec<SocketAddr>,
}

impl View for RendezvousInfo {
    type V = RendezvousInfoView;

    open spec fn view(&self) -> RendezvousInfoView {
        RendezvousInfoView { udp: self.udp@, tcp: self.tcp@ }
    }
}

impl Default for RendezvousInfo {
    fn default() -> (info: RendezvousInfo)
        ensures
            info@ == RendezvousInfoView::empty(),
    {
        RendezvousInfo { udp: Vec::new(), tcp: Vec::new() }
    }
}

/// The outcome of hole punching: at most one live socket per transport,
/// each with the token it is registered under.
#[derive(Debug)]
pub struct HolePunchInfo {
    pub tcp: Option<(TcpStream, Token)>,
    pub udp: Option<(UdpSocket, Token)>,
}

impl HolePunchInfo {
    /// No socket for either transport.
    pub open spec fn empty() -> HolePunchInfo {
        HolePunchInfo { tcp: None, udp: None }
    }

    /// At least one transport has a live socket.
    pub open spec fn has_socket(self) -> bool {
        self.tcp is Some || self.udp is Some
    }
}

impl Default for HolePunchInfo {
    fn default() -> (info: HolePunchInfo)
        ensures
            info == HolePunchInfo::empty(),
    {
        HolePunchInfo { tcp: None, udp: None }
    }
}

/// The name a timer is armed under: the state it belongs to and the
/// identifier it fires with.
#[derive(Debug)]
pub struct NatTimer {
    pub associated_nat_state: Token,
    pub timer_id: u8,
}

/// A timer the driver has to arm.
#[derive(Debug)]
pub struct TimerRequest {
    /// The duration in seconds.
    pub secs: u64,
    /// The name to arm it under.
    pub timer: NatTimer,
}

/// What the driver has to do to begin the punch phase: arm the timer, then
/// ask each listed transport's child to punch towards the given addresses.
#[derive(Debug)]
pub struct PunchRequest {
    pub timer: TimerRequest,
    /// The peer's UDP addresses, if the UDP child is to punch.
    pub udp: Option<Vec<SocketAddr>>,
    /// The peer's TCP addresses, if the TCP child is to punch.
    pub tcp: Option<Vec<SocketAddr>>,
}

impl View for PunchRequest {
    type V = PunchRequestView;

    open spec fn view(&self) -> PunchRequestView {
        PunchRequestView {
            secs: self.timer.secs,
            token: self.timer.timer.associated_nat_state,
            timer_id: self.timer.timer.timer_id,
            udp: match self.udp {
                Some(addrs) => Some(addrs@),
                None => None,
            },
            tcp: match self.tcp {
                Some(addrs) => Some(addrs@),
                None => None,
            },
        }
    }
}

/// The capability to trigger the punch phase of one mediator.
#[derive(Debug)]
pub struct Handle {
    token: Token,
}

impl View for Handle {
    type V = Token;

    closed spec fn view(&self) -> Token {
        self.token
    }
}

/// What a handle asks the reactor's thread to do, once the driver has posted
/// the request there.
#[derive(Debug)]
pub enum HandleRequest {
    /// Begin the punch phase of the mediator registered under the token,
    /// towards these peer addresses.
    HolePunch { mediator: Token, peers: RendezvousInfo },
    /// Terminate the mediator registered under the token, if there is one.
    Terminate { mediator: Token },
}

impl View for HandleRequest {
    type V = HandleRequestView;

    open spec fn view(&self) -> HandleRequestView {
        match *self {
            HandleRequest::HolePunch { mediator, peers } => HandleRequestView::HolePunch {
                mediator,
                peers: peers@,
            },
            HandleRequest::Terminate { mediator } => HandleRequestView::Terminate { mediator },
        }
    }
}

impl HandleRequest {
    /// What is to be posted in place of this request if it cannot be posted.
    ///
    /// A handle whose trigger cannot be posted counts as abandoned, so the
    /// termination of its mediator is asked for. If that request cannot be
    /// posted either, nothing more is tried.
    pub fn undelivered(&self) -> (fallback: Option<HandleRequest>)
        ensures
            match *self {
                HandleRequest::HolePunch { mediator, .. } => fallback == Some(
                    HandleRequest::Terminate { mediator },
                ),
                HandleRequest::Terminate { .. } => fallback is None,
            },
    {
        match self {
            HandleRequest::HolePunch { mediator, .. } => Some(
                HandleRequest::Terminate { mediator: *mediator },
            ),
            HandleRequest::Terminate { .. } => None,
        }
    }
}

impl Handle {
    /// Uses the handle up to trigger the punch phase: the request is to be
    /// posted to the reactor's thread, where `start_hole_punch` answers it.
    pub fn fire_hole_punch(self, peers: RendezvousInfo) -> (request: HandleRequest)
        ensures
            request@ == (HandleRequestView::HolePunch { mediator: self@, peers: peers@ }),
    {
        HandleRequest::HolePunch { mediator: self.token, peers }
    }

    /// Answers a trigger on the reactor's thread. `found` is the mediator
    /// registered under the trigger's token, if the token still names one.
    ///
    /// Without a mediator the trigger fails with `InvalidState`; with one,
    /// the mediator decides as `hole_punch_request` says.
    pub fn start_hole_punch(
        found: Option<&HolePunchMediator>,
        peers: RendezvousInfo,
        hole_punch_timeout_sec: Option<u64>,
    ) -> (result: Result<PunchRequest, NatError>)
        ensures
            match start_hole_punch(found, peers@, hole_punch_timeout_sec) {
                Ok(request) => result is Ok && result->Ok_0@ == request,
                Err(e) => result == Err::<PunchRequest, NatError>(e),
            },
    {
        match found {
            Some(mediator) => mediator.hole_punch_request(peers, hole_punch_timeout_sec),
            None => Err(NatError::InvalidState),
        }
    }

    /// Uses the handle up for its mediator's token, without triggering
    /// anything and without asking for the mediator's termination.
    pub fn mediator_token(self) -> (token: Token)
        ensures
            token == self@,
    {
        self.token
    }

    /// Gives the handle up unused: the request is to be posted to the
    /// reactor's thread, where `terminate_abandoned` answers it.
    pub fn abandon(self) -> (request: HandleRequest)
        ensures
            request@ == (HandleRequestView::Terminate { mediator: self@ }),
    {
        HandleRequest::Terminate { mediator: self.token }
    }

    /// Answers the request of an abandoned handle on the reactor's thread.
    /// `found` is the mediator registered under the request's token, if
    /// there still is one: it is terminated. Without one nothing is done.
    pub fn terminate_abandoned(found: Option<&mut HolePunchMediator>) -> (actions: Vec<Action>)
        ensures
            match found {
                Some(mediator) => final(mediator)@ == mediator@.terminate().next
                    && actions.deep_view() == mediator@.terminate().actions && (mediator@.wf()
                    ==> final(mediator)@.wf()),
                None => actions.deep_view() == Seq::<ActionView>::empty(),
            },
    {
        match found {
            Some(mediator) => mediator.terminate(),
            None => {
                let actions: Vec<Action> = Vec::new();
                assert(actions.deep_view() =~= Seq::<ActionView>::empty());
                actions
            },
        }
    }
}

/// One thing the driver has to do for the mediator. A transition returns
/// its actions in the order in which they are to be performed.
#[derive(Debug)]
pub enum Action {
    /// Remove the state registered under the token from the reactor.
    RemoveState(Token),
    /// Cancel the timer behind the handle; a failure to cancel is ignored.
    CancelTimeout(Timeout),
    /// Let go of the transport's child without terminating it.
    ReleaseChild(Transport),
    /// Take the transport's child out of the driver, then terminate it.
    TerminateChild(Transport),
    /// Invoke the rendezvous continuation with this result.
    RendezvousDone(Result<(Handle, RendezvousInfo), NatError>),
    /// Invoke the hole-punch continuation with this result.
    HolePunchDone(Result<HolePunchInfo, NatError>),
}

impl DeepView for Action {
    type V = ActionView;

    open spec fn deep_view(&self) -> ActionView {
        match *self {
            Action::RemoveState(token) => ActionView::RemoveState(token),
            Action::CancelTimeout(timeout) => ActionView::CancelTimeout(timeout),
            Action::ReleaseChild(transport) => ActionView::ReleaseChild(transport),
            Action::TerminateChild(transport) => ActionView::TerminateChild(transport),
            Action::RendezvousDone(Ok((handle, info))) => ActionView::RendezvousDone(
                Ok((handle@, info@)),
            ),
            Action::RendezvousDone(Err(e)) => ActionView::RendezvousDone(Err(e)),
            Action::HolePunchDone(result) => ActionView::HolePunchDone(result),
        }
    }
}

#[allow(inconsistent_fields)]
#[derive(Debug)]
enum State {
    Idle,
    Rendezvous { info: RendezvousInfo, timeout: Timeout, udp_reported: bool, tcp_reported: bool },
    ReadyToHolePunch,
    HolePunching { info: HolePunchInfo, timeout: Timeout },
    Terminated,
}

impl View for State {
    type V = StateView;

    closed spec fn view(&self) -> StateView {
        match *self {
            State::Idle => StateView::Idle,
            State::Rendezvous { info, timeout, udp_reported, tcp_reported } => StateView::Rendezvous {
                info: info@,
                timeout,
                udp_reported,
                tcp_reported,
            },
            State::ReadyToHolePunch => StateView::ReadyToHolePunch,
            State::HolePunching { info, timeout } => StateView::HolePunching { info, timeout },
            State::Terminated => StateView::Terminated,
        }
    }
}

/// The state machine that drives one NAT traversal.
#[derive(Debug)]
pub struct HolePunchMediator {
    token: Token,
    state: State,
    udp_child: bool,
    tcp_child: bool,
}

impl View for HolePunchMediator {
    type V = MediatorView;

    closed spec fn view(&self) -> MediatorView {
        MediatorView {
            token: self.token,
            state: self.state@,
            udp_child: self.udp_child,
            tcp_child: self.tcp_child,
        }
    }
}

impl HolePunchMediator {
    /// A mediator that has not started, registered nowhere yet.
    pub fn new(token: Token) -> (mediator: HolePunchMediator)
        ensures
            mediator@ == (MediatorView {
                token,
                state: StateView::Idle,
                udp_child: false,
                tcp_child: false,
            }),
            mediator@.wf(),
    {
        HolePunchMediator { token, state: State::Idle, udp_child: false, tcp_child: false }
    }

    /// Terminates the mediator: the returned actions deregister it, cancel
    /// the phase timer if the phase has one, and terminate each remaining
    /// child. On a terminated mediator nothing changes and nothing is
    /// returned, so terminating twice releases nothing twice.
    pub fn terminate(&mut self) -> (actions: Vec<Action>)
        ensures
            final(self)@ == old(self)@.terminate().next,
            actions.deep_view() == old(self)@.terminate().actions,
            final(self)@.state is Terminated,
            old(self)@.state is Terminated ==> final(self)@ == old(self)@ && actions@.len() == 0,
            old(self)@.wf() ==> final(self)@.wf(),
    {
        proof {
            if old(self)@.wf() {
                law_step_keeps_well_formed(old(self)@, Event::Terminate);
            }
        }
        let mut actions: Vec<Action> = Vec::new();
        let mut state = State::Terminated;
        std::mem::swap(&mut self.state, &mut state);
        match state {
            State::Terminated => {
                assert(actions.deep_view() =~= old(self)@.terminate().actions);
                return actions;
            },
            State::Rendezvous { timeout, .. } => {
                actions.push(Action::RemoveState(self.token));
                actions.push(Action::CancelTimeout(timeout));
            },
            State::HolePunching { timeout, .. } => {
                actions.push(Action::RemoveState(self.token));
                actions.push(Action::CancelTimeout(timeout));
            },
            State::Idle => {
                actions.push(Action::RemoveState(self.token));
            },
            State::ReadyToHolePunch => {
                actions.push(Action::RemoveState(self.token));
            },
        }
        if self.udp_child {
            self.udp_child = false;
            actions.push(Action::TerminateChild(Transport::Udp));
        }
        if self.tcp_child {
            self.tcp_child = false;
            actions.push(Action::TerminateChild(Transport::Tcp));
        }
        assert(actions.deep_view() =~= old(self)@.terminate().actions);
        actions
    }

    /// Says which timer the driver has to arm before it starts the
    /// transports' children: the configured duration, or the default one,
    /// under the mediator's token.
    ///
    /// Only a mediator that has not started asks for this timer: any other
    /// refuses with `InvalidState`, so no phase is ever timed twice.
    pub fn rendezvous_timer(&self, rendezvous_timeout_sec: Option<u64>) -> (result: Result<
        TimerRequest,
        NatError,
    >)
        ensures
            result == self@.rendezvous_timer(rendezvous_timeout_sec),
    {
        match &self.state {
            State::Idle => {},
            _ => {
                return Err(NatError::InvalidState);
            },
        }
        let secs: u64 = match rendezvous_timeout_sec {
            Some(secs) => secs,
            None => RENDEZVOUS_TIMEOUT_SEC,
        };
        Ok(
            TimerRequest {
                secs,
                timer: NatTimer { associated_nat_state: self.token, timer_id: TIMER_ID },
            },
        )
    }

    /// Starts the rendezvous phase, once the timer is armed and every
    /// transport was asked to start its rendezvous.
    ///
    /// Fails with `InvalidState` if the mediator has started before, and
    /// with `RendezvousFailed` if no transport could be started; nothing
    /// changes then. Otherwise the mediator enters the rendezvous phase with
    /// the timer and one child per started transport.
    pub fn start(&mut self, timeout: Timeout, udp_started: bool, tcp_started: bool) -> (result: Result<
        (),
        NatError,
    >)
        ensures
            match old(self)@.start_error(udp_started, tcp_started) {
                Some(e) => result == Err::<(), NatError>(e) && final(self)@ == old(self)@,
                None => result is Ok && final(self)@ == old(self)@.started(
                    timeout,
                    udp_started,
                    tcp_started,
                ),
            },
            old(self)@.wf() ==> final(self)@.wf(),
    {
        match &self.state {
            State::Idle => {},
            _ => {
                return Err(NatError::InvalidState);
            },
        }
        if !udp_started && !tcp_started {
            return Err(NatError::RendezvousFailed);
        }
        self.state =
        State::Rendezvous {
            info: RendezvousInfo::default(),
            timeout,
            udp_reported: false,
            tcp_reported: false,
        };
        self.udp_child = udp_started;
        self.tcp_child = tcp_started;
        Ok(())
    }

    /// Ends the start, once the driver has tried to register the mediator
    /// with the reactor. A registered mediator is left as it is. One that
    /// could not be registered is terminated, and the start as a whole has
    /// failed with `HolePunchMediatorFailedToStart`.
    pub fn finish_start(&mut self, registered: bool) -> (outcome: (Result<(), NatError>, Vec<Action>))
        ensures
            registered ==> outcome.0 is Ok,
            !registered ==> outcome.0 == Err::<(), NatError>(
                NatError::HolePunchMediatorFailedToStart,
            ),
            final(self)@ == old(self)@.finish_start(registered).next,
            outcome.1.deep_view() == old(self)@.finish_start(registered).actions,
            old(self)@.wf() ==> final(self)@.wf(),
    {
        proof {
            if old(self)@.wf() {
                law_step_keeps_well_formed(old(self)@, Event::FinishStart { registered });
            }
        }
        if registered {
            let actions: Vec<Action> = Vec::new();
            assert(actions.deep_view() =~= old(self)@.finish_start(registered).actions);
            (Ok(()), actions)
        } else {
            let actions = self.terminate();
            (Err(NatError::HolePunchMediatorFailedToStart), actions)
        }
    }

    /// Takes note of the UDP child's rendezvous report and decides how the
    /// phase goes on.
    pub fn handle_udp_rendezvous(&mut self, res: Result<Vec<SocketAddr>, NatError>) -> (actions: Vec<
        Action,
    >)
        ensures
            final(self)@ == old(self)@.rendezvous_report(Transport::Udp, addresses(res)).next,
            actions.deep_view() == old(self)@.rendezvous_report(
                Transport::Udp,
                addresses(res),
            ).actions,
            old(self)@.wf() ==> final(self)@.wf(),
    {
        self.report_rendezvous(Transport::Udp, res)
    }

    /// Takes note of the TCP child's rendezvous report and decides how the
    /// phase goes on.
    pub fn handle_tcp_rendezvous(&mut self, res: Result<Vec<SocketAddr>, NatError>) -> (actions: Vec<
        Action,
    >)
        ensures
            final(self)@ == old(self)@.rendezvous_report(Transport::Tcp, addresses(res)).next,
            actions.deep_view() == old(self)@.rendezvous_report(
                Transport::Tcp,
                addresses(res),
            ).actions,
            old(self)@.wf() ==> final(self)@.wf(),
    {
        self.report_rendezvous(Transport::Tcp, res)
    }

    fn report_rendezvous(&mut self, transport: Transport, res: Result<Vec<SocketAddr>, NatError>) -> (actions: Vec<
        Action,
    >)
        ensures
            final(self)@ == old(self)@.rendezvous_report(transport, addresses(res)).next,
            actions.deep_view() == old(self)@.rendezvous_report(transport, addresses(res)).actions,
            old(self)@.wf() ==> final(self)@.wf(),
    {
        proof {
            if old(self)@.wf() {
                law_step_keeps_well_formed(
                    old(self)@,
                    Event::Rendezvous { transport, outcome: addresses(res) },
                );
            }
        }
        let mut actions: Vec<Action> = Vec::new();
        let mut state = State::Terminated;
        std::mem::swap(&mut self.state, &mut state);
        match state {
            State::Rendezvous { info, timeout, udp_reported, tcp_reported } => {
                let mut info = info;
                let mut udp_reported = udp_reported;
                let mut tcp_reported = tcp_reported;
                match res {
                    Ok(addrs) => match transport {
                        Transport::Udp => {
                            info.udp = addrs;
                            udp_reported = true;
                        },
                        Transport::Tcp => {
                            info.tcp = addrs;
                            tcp_reported = true;
                        },
                    },
                    Err(_) => match transport {
                        Transport::Udp => {
                            if self.udp_child {
                                self.udp_child = false;
                                actions.push(Action::ReleaseChild(Transport::Udp));
                            }
                        },
                        Transport::Tcp => {
                            if self.tcp_child {
                                self.tcp_child = false;
                                actions.push(Action::ReleaseChild(Transport::Tcp));
                            }
                        },
                    },
                }
                let waiting = (self.udp_child && !udp_reported) || (self.tcp_child
                    && !tcp_reported);
                if waiting {
                    self.state = State::Rendezvous { info, timeout, udp_reported, tcp_reported };
                } else if info.udp.len() > 0 || info.tcp.len() > 0 {
                    self.state = State::ReadyToHolePunch;
                    actions.push(Action::CancelTimeout(timeout));
                    actions.push(
                        Action::RendezvousDone(Ok((Handle { token: self.token }, info))),
                    );
                } else {
                    actions.push(Action::RendezvousDone(Err(NatError::RendezvousFailed)));
                    self.state = State::Rendezvous { info, timeout, udp_reported, tcp_reported };
                    let mut rest = self.terminate();
                    actions.append(&mut rest);
                }
            },
            other => {
                self.state = other;
            },
        }
        assert(actions.deep_view() =~= old(self)@.rendezvous_report(
            transport,
            addresses(res),
        ).actions);
        actions
    }

    /// Says what the driver has to do to begin the punch phase.
    ///
    /// Unless the mediator is ready to punch, the request fails with
    /// `HolePunchFailed`. Otherwise the answer names the timer to arm and,
    /// for each transport that still has a child, the peer's addresses for
    /// that transport.
    pub fn hole_punch_request(&self, peers: RendezvousInfo, hole_punch_timeout_sec: Option<u64>) -> (result: Result<
        PunchRequest,
        NatError,
    >)
        ensures
            match self@.hole_punch_request(peers@, hole_punch_timeout_sec) {
                Ok(request) => result is Ok && result->Ok_0@ == request,
                Err(e) => result == Err::<PunchRequest, NatError>(e),
            },
    {
        match &self.state {
            State::ReadyToHolePunch => {},
            _ => {
                return Err(NatError::HolePunchFailed);
            },
        }
        let secs: u64 = match hole_punch_timeout_sec {
            Some(secs) => secs,
            None => HOLE_PUNCH_TIMEOUT_SEC,
        };
        let udp = if self.udp_child {
            Some(peers.udp)
        } else {
            None
        };
        let tcp = if self.tcp_child {
            Some(peers.tcp)
        } else {
            None
        };
        Ok(
            PunchRequest {
                timer: TimerRequest {
                    secs,
                    timer: NatTimer { associated_nat_state: self.token, timer_id: TIMER_ID },
                },
                udp,
                tcp,
            },
        )
    }

    /// Begins the punch phase, once the driver has tried to arm the timer
    /// and, if that succeeded, has asked each remaining child to punch.
    ///
    /// Unless the mediator is ready to punch, nothing changes and the
    /// continuation is to be invoked with `HolePunchFailed`. If the timer
    /// could not be armed, the mediator terminates and the timer's error is
    /// surfaced. A child whose punch did not start is released. If no child
    /// is left, the mediator terminates and the continuation is to be
    /// invoked with `HolePunchFailed`; otherwise the mediator waits for the
    /// children's reports.
    pub fn punch_hole(&mut self, timeout: Result<Timeout, NatError>, udp_started: bool, tcp_started: bool) -> (actions: Vec<
        Action,
    >)
        ensures
            final(self)@ == old(self)@.punch_hole(timeout, udp_started, tcp_started).next,
            actions.deep_view() == old(self)@.punch_hole(timeout, udp_started, tcp_started).actions,
            !(old(self)@.state is ReadyToHolePunch) ==> final(self)@ == old(self)@
                && actions.deep_view() == seq![
                ActionView::HolePunchDone(Err(NatError::HolePunchFailed)),
            ],
            old(self)@.wf() ==> final(self)@.wf(),
    {
        proof {
            if old(self)@.wf() {
                law_step_keeps_well_formed(
                    old(self)@,
                    Event::PunchHole { timeout, udp_started, tcp_started },
                );
            }
        }
        let mut actions: Vec<Action> = Vec::new();
        match &self.state {
            State::ReadyToHolePunch => {},
            _ => {
                actions.push(Action::HolePunchDone(Err(NatError::HolePunchFailed)));
                assert(actions.deep_view() =~= old(self)@.punch_hole(
                    timeout,
                    udp_started,
                    tcp_started,
                ).actions);
                return actions;
            },
        }
        match timeout {
            Err(e) => {
                let mut rest = self.terminate();
                actions.append(&mut rest);
                actions.push(Action::HolePunchDone(Err(e)));
            },
            Ok(timeout) => {
                if self.udp_child && !udp_started {
                    self.udp_child = false;
                    actions.push(Action::ReleaseChild(Transport::Udp));
                }
                if self.tcp_child && !tcp_started {
                    self.tcp_child = false;
                    actions.push(Action::ReleaseChild(Transport::Tcp));
                }
                self.state = State::HolePunching { info: HolePunchInfo::default(), timeout };
                if !self.udp_child && !self.tcp_child {
                    let mut rest = self.terminate();
                    actions.append(&mut rest);
                    actions.push(Action::HolePunchDone(Err(NatError::HolePunchFailed)));
                }
            },
        }
        assert(actions.deep_view() =~= old(self)@.punch_hole(
            timeout,
            udp_started,
            tcp_started,
        ).actions);
        actions
    }

    /// Takes note of the UDP child's hole-punch report and decides how the
    /// phase goes on.
    pub fn handle_udp_hole_punch(&mut self, res: Result<(UdpSocket, Token), NatError>) -> (actions: Vec<
        Action,
    >)
        ensures
            final(self)@ == old(self)@.udp_hole_punch_report(socket(res)).next,
            actions.deep_view() == old(self)@.udp_hole_punch_report(socket(res)).actions,
            old(self)@.wf() ==> final(self)@.wf(),
    {
        proof {
            if old(self)@.wf() {
                law_step_keeps_well_formed(
                    old(self)@,
                    Event::UdpHolePunch { outcome: socket(res) },
                );
            }
        }
        let mut actions: Vec<Action> = Vec::new();
        let mut state = State::Terminated;
        std::mem::swap(&mut self.state, &mut state);
        match state {
            State::HolePunching { info, timeout } => {
                let mut info = info;
                if self.udp_child {
                    self.udp_child = false;
                    actions.push(Action::ReleaseChild(Transport::Udp));
                }
                match res {
                    Ok(socket) => {
                        info.udp = Some(socket);
                    },
                    Err(_) => {},
                }
                self.state = State::HolePunching { info, timeout };
                if !self.udp_child && !self.tcp_child {
                    let mut rest = self.conclude_hole_punch();
                    actions.append(&mut rest);
                }
            },
            other => {
                self.state = other;
            },
        }
        assert(actions.deep_view() =~= old(self)@.udp_hole_punch_report(socket(res)).actions);
        actions
    }

    /// Takes note of the TCP child's hole-punch report and decides how the
    /// phase goes on.
    pub fn handle_tcp_hole_punch(&mut self, res: Result<(TcpStream, Token), NatError>) -> (actions: Vec<
        Action,
    >)
        ensures
            final(self)@ == old(self)@.tcp_hole_punch_report(socket(res)).next,
            actions.deep_view() == old(self)@.tcp_hole_punch_report(socket(res)).actions,
            old(self)@.wf() ==> final(self)@.wf(),
    {
        proof {
            if old(self)@.wf() {
                law_step_keeps_well_formed(
                    old(self)@,
                    Event::TcpHolePunch { outcome: socket(res) },
                );
            }
        }
        let mut actions: Vec<Action> = Vec::new();
        let mut state = State::Terminated;
        std::mem::swap(&mut self.state, &mut state);
        match state {
            State::HolePunching { info, timeout } => {
                let mut info = info;
                if self.tcp_child {
                    self.tcp_child = false;
                    actions.push(Action::ReleaseChild(Transport::Tcp));
                }
                match res {
                    Ok(socket) => {
                        info.tcp = Some(socket);
                    },
                    Err(_) => {},
                }
                self.state = State::HolePunching { info, timeout };
                if !self.udp_child && !self.tcp_child {
                    let mut rest = self.conclude_hole_punch();
                    actions.append(&mut rest);
                }
            },
            other => {
                self.state = other;
            },
        }
        assert(actions.deep_view() =~= old(self)@.tcp_hole_punch_report(socket(res)).actions);
        actions
    }

    fn conclude_hole_punch(&mut self) -> (actions: Vec<Action>)
        ensures
            final(self)@ == old(self)@.conclude_hole_punch().next,
            actions.deep_view() == old(self)@.conclude_hole_punch().actions,
    {
        let mut actions: Vec<Action> = Vec::new();
        let mut state = State::Terminated;
        std::mem::swap(&mut self.state, &mut state);
        match state {
            State::HolePunching { info, timeout } => {
                if info.tcp.is_some() || info.udp.is_some() {
                    actions.push(Action::HolePunchDone(Ok(info)));
                } else {
                    actions.push(Action::HolePunchDone(Err(NatError::HolePunchFailed)));
                }
                self.state = State::HolePunching { info: HolePunchInfo::default(), timeout };
                let mut rest = self.terminate();
                actions.append(&mut rest);
            },
            other => {
                self.state = other;
            },
        }
        assert(actions.deep_view() =~= old(self)@.conclude_hole_punch().actions);
        actions
    }

    /// Reacts to the expiry of a timer.
    ///
    /// `udp` and `tcp` are what the transports' children answered when the
    /// driver asked them for their rendezvous-timeout outcome; they matter
    /// during rendezvous only, and a child that was not asked counts as
    /// failed. A timer other than the mediator's own is ignored. During
    /// rendezvous the answers of the children still held are treated as
    /// their reports, UDP first. During hole punching the phase ends with
    /// what was gathered. In any other phase the mediator terminates.
    pub fn timeout(
        &mut self,
        timer_id: u8,
        udp: Option<Result<Vec<SocketAddr>, NatError>>,
        tcp: Option<Result<Vec<SocketAddr>, NatError>>,
    ) -> (actions: Vec<Action>)
        ensures
            final(self)@ == old(self)@.timeout(timer_id, answer(udp), answer(tcp)).next,
            actions.deep_view() == old(self)@.timeout(timer_id, answer(udp), answer(tcp)).actions,
            old(self)@.wf() ==> final(self)@.wf(),
    {
        proof {
            if old(self)@.wf() {
                law_step_keeps_well_formed(
                    old(self)@,
                    Event::Timeout { timer_id, udp: answer(udp), tcp: answer(tcp) },
                );
            }
        }
        let mut actions: Vec<Action> = Vec::new();
        if timer_id != TIMER_ID {
            assert(actions.deep_view() =~= old(self)@.timeout(
                timer_id,
                answer(udp),
                answer(tcp),
            ).actions);
            return actions;
        }
        let phase = self.phase();
        match phase {
            Phase::Rendezvous => {
                if self.udp_child {
                    let res = match udp {
                        Some(res) => res,
                        None => Err(NatError::Unknown),
                    };
                    let mut rest = self.report_rendezvous(Transport::Udp, res);
                    actions.append(&mut rest);
                }
                if self.tcp_child {
                    let res = match tcp {
                        Some(res) => res,
                        None => Err(NatError::Unknown),
                    };
                    let mut rest = self.report_rendezvous(Transport::Tcp, res);
                    actions.append(&mut rest);
                }
            },
            Phase::HolePunching => {
                let mut rest = self.conclude_hole_punch();
                actions.append(&mut rest);
            },
            _ => {
                let mut rest = self.terminate();
                actions.append(&mut rest);
            },
        }
        assert(actions.deep_view() =~= old(self)@.timeout(
            timer_id,
            answer(udp),
            answer(tcp),
        ).actions);
        actions
    }

    /// Whether the driver has to ask the transport's child for its
    /// rendezvous-timeout outcome before it reports the expiry of the timer:
    /// only for the mediator's own timer, during rendezvous, and of a child
    /// that is still held. The answer of a child that is not to be asked
    /// has no bearing on `timeout`.
    pub fn asks_on_timeout(&self, timer_id: u8, transport: Transport) -> (asks: bool)
        ensures
            asks == self@.asks_on_timeout(timer_id, transport),
    {
        if timer_id != TIMER_ID {
            return false;
        }
        match &self.state {
            State::Rendezvous { .. } => match transport {
                Transport::Udp => self.udp_child,
                Transport::Tcp => self.tcp_child,
            },
            _ => false,
        }
    }

    /// The phase the mediator is in.
    pub fn phase(&self) -> (phase: Phase)
        ensures
            phase == self@.state.phase(),
    {
        match &self.state {
            State::Idle => Phase::Idle,
            State::Rendezvous { .. } => Phase::Rendezvous,
            State::ReadyToHolePunch => Phase::ReadyToHolePunch,
            State::HolePunching { .. } => Phase::HolePunching,
            State::Terminated => Phase::Terminated,
        }
    }

    /// The token the mediator is registered under.
    pub fn token(&self) -> (token: Token)
        ensures
            token == self@.token,
    {
        self.token
    }

    /// Whether the transport still has a child.
    pub fn has_child(&self, transport: Transport) -> (present: bool)
        ensures
            present == self@.has_child(transport),
    {
        match transport {
            Transport::Udp => self.udp_child,
            Transport::Tcp => self.tcp_child,
        }
    }
}

} // verus!

use mio::tcp::TcpStream;
use mio::timer::{Timeout, Timer, TimerError};
use mio::udp::UdpSocket;
use mio::Token;
use p2p::addr::SocketAddr;
use p2p::error::NatError;
use p2p::hole_punch::{
    Action, HolePunchInfo, HolePunchMediator, Phase, RendezvousInfo, Transport,
    HOLE_PUNCH_TIMEOUT_SEC, TIMER_ID,
};
use std::time::Duration;

fn armed(secs: u64) -> Timeout {
    let mut timer: Timer<()> = Timer::default();
    timer.set_timeout(Duration::from_secs(secs), ()).unwrap()
}

fn v4(ip: u32, port: u16) -> SocketAddr {
    SocketAddr::V4 { ip, port }
}

fn udp_socket() -> UdpSocket {
    UdpSocket::bind(&"127.0.0.1:0".parse().unwrap()).unwrap()
}

fn tcp_stream() -> TcpStream {
    let builder = net2::TcpBuilder::new_v4().unwrap();
    builder.bind("127.0.0.1:0").unwrap();
    TcpStream::from_stream(builder.to_tcp_stream().unwrap()).unwrap()
}

/// A mediator whose rendezvous succeeded with the given transports started.
fn ready(token: Token, udp: bool, tcp: bool) -> HolePunchMediator {
    let mut mediator = HolePunchMediator::new(token);
    mediator.start(armed(8), udp, tcp).unwrap();
    if udp {
        mediator.handle_udp_rendezvous(Ok(vec![v4(1, 1)]));
    }
    if tcp {
        mediator.handle_tcp_rendezvous(Ok(vec![v4(2, 2)]));
    }
    assert_eq!(mediator.phase(), Phase::ReadyToHolePunch);
    mediator
}

fn punching(token: Token, udp: bool, tcp: bool) -> HolePunchMediator {
    let mut mediator = ready(token, udp, tcp);
    assert!(mediator.punch_hole(Ok(armed(15)), udp, tcp).is_empty());
    assert_eq!(mediator.phase(), Phase::HolePunching);
    mediator
}

fn done_count(actions: &[Action]) -> usize {
    actions.iter().filter(|a| matches!(a, Action::HolePunchDone(_))).count()
}

fn removals(actions: &[Action]) -> usize {
    actions.iter().filter(|a| matches!(a, Action::RemoveState(_))).count()
}

#[test]
fn hole_punch_info_defaults_to_no_socket() {
    let info = HolePunchInfo::default();
    assert!(info.udp.is_none());
    assert!(info.tcp.is_none());
}

#[test]
fn hole_punch_request_names_timer_and_peers() {
    let mediator = ready(Token(5), true, true);
    let peers = RendezvousInfo { udp: vec![v4(10, 1), v4(10, 2)], tcp: vec![v4(20, 1)] };
    let request = mediator.hole_punch_request(peers, None).unwrap();
    assert_eq!(request.timer.secs, HOLE_PUNCH_TIMEOUT_SEC);
    assert_eq!(request.timer.secs, 15);
    assert_eq!(request.timer.timer.associated_nat_state, Token(5));
    assert_eq!(request.timer.timer.timer_id, TIMER_ID);
    assert_eq!(request.udp, Some(vec![v4(10, 1), v4(10, 2)]));
    assert_eq!(request.tcp, Some(vec![v4(20, 1)]));
    // Asking changes nothing.
    assert_eq!(mediator.phase(), Phase::ReadyToHolePunch);
}

#[test]
fn hole_punch_request_takes_the_configured_duration() {
    let mediator = ready(Token(5), true, false);
    let peers = RendezvousInfo { udp: vec![], tcp: vec![v4(20, 1)] };
    let request = mediator.hole_punch_request(peers, Some(40)).unwrap();
    assert_eq!(request.timer.secs, 40);
    assert_eq!(request.udp, Some(vec![]));
    assert_eq!(request.tcp, None);
}

#[test]
fn hole_punch_request_is_refused_out_of_phase() {
    let idle = HolePunchMediator::new(Token(1));
    assert!(matches!(
        idle.hole_punch_request(RendezvousInfo::default(), None),
        Err(NatError::HolePunchFailed)
    ));
    let mut waiting = HolePunchMediator::new(Token(1));
    waiting.start(armed(8), true, false).unwrap();
    assert!(matches!(
        waiting.hole_punch_request(RendezvousInfo::default(), None),
        Err(NatError::HolePunchFailed)
    ));
    let busy = punching(Token(1), true, false);
    assert!(matches!(
        busy.hole_punch_request(RendezvousInfo::default(), Some(1)),
        Err(NatError::HolePunchFailed)
    ));
    let mut over = ready(Token(1), true, false);
    over.terminate();
    assert!(matches!(
        over.hole_punch_request(RendezvousInfo::default(), None),
        Err(NatError::HolePunchFailed)
    ));
}

fn refused(mediator: &mut HolePunchMediator, phase: Phase, udp: bool, tcp: bool) {
    let actions = mediator.punch_hole(Ok(armed(15)), true, true);
    assert_eq!(actions.len(), 1);
    assert!(matches!(actions[0], Action::HolePunchDone(Err(NatError::HolePunchFailed))));
    assert_eq!(mediator.phase(), phase);
    assert_eq!(mediator.has_child(Transport::Udp), udp);
    assert_eq!(mediator.has_child(Transport::Tcp), tcp);
    let actions = mediator.punch_hole(Err(NatError::Unknown), false, false);
    assert_eq!(actions.len(), 1);
    assert!(matches!(actions[0], Action::HolePunchDone(Err(NatError::HolePunchFailed))));
    assert_eq!(mediator.phase(), phase);
    assert_eq!(mediator.has_child(Transport::Udp), udp);
    assert_eq!(mediator.has_child(Transport::Tcp), tcp);
}

#[test]
fn punch_hole_out_of_phase_fails_and_changes_nothing() {
    let mut idle = HolePunchMediator::new(Token(1));
    refused(&mut idle, Phase::Idle, false, false);

    let mut waiting = HolePunchMediator::new(Token(1));
    waiting.start(armed(8), true, true).unwrap();
    refused(&mut waiting, Phase::Rendezvous, true, true);
    // The rendezvous goes on as if nothing had been asked.
    waiting.handle_udp_rendezvous(Ok(vec![v4(1, 1)]));
    let actions = waiting.handle_tcp_rendezvous(Ok(vec![v4(2, 2)]));
    assert_eq!(actions.len(), 2);

    let mut busy = punching(Token(1), true, false);
    refused(&mut busy, Phase::HolePunching, true, false);
    let actions = busy.handle_udp_hole_punch(Ok((udp_socket(), Token(2))));
    assert!(matches!(actions[1], Action::HolePunchDone(Ok(_))));

    let mut over = ready(Token(1), true, false);
    over.terminate();
    refused(&mut over, Phase::Terminated, false, false);
}

#[test]
fn punch_hole_keeps_the_children_that_started() {
    let mut mediator = ready(Token(1), true, true);
    let actions = mediator.punch_hole(Ok(armed(15)), false, true);
    assert_eq!(actions.len(), 1);
    assert!(matches!(actions[0], Action::ReleaseChild(Transport::Udp)));
    assert_eq!(mediator.phase(), Phase::HolePunching);
    assert!(!mediator.has_child(Transport::Udp));
    assert!(mediator.has_child(Transport::Tcp));
}

#[test]
fn punch_hole_does_not_revive_a_child() {
    let mut mediator = HolePunchMediator::new(Token(1));
    mediator.start(armed(8), true, true).unwrap();
    mediator.handle_tcp_rendezvous(Err(NatError::Unknown));
    mediator.handle_udp_rendezvous(Ok(vec![v4(1, 1)]));
    assert_eq!(mediator.phase(), Phase::ReadyToHolePunch);
    let actions = mediator.punch_hole(Ok(armed(15)), true, true);
    assert!(actions.is_empty());
    assert!(mediator.has_child(Transport::Udp));
    assert!(!mediator.has_child(Transport::Tcp));
}

#[test]
fn punch_hole_with_no_child_started_fails_and_terminates() {
    let token = Token(14);
    let mut mediator = ready(token, true, true);
    let timeout = armed(15);
    let cancel = format!("{:?}", Action::CancelTimeout(timeout.clone()));
    let actions = mediator.punch_hole(Ok(timeout), false, false);
    assert_eq!(mediator.phase(), Phase::Terminated);
    assert_eq!(actions.len(), 5);
    assert!(matches!(actions[0], Action::ReleaseChild(Transport::Udp)));
    assert!(matches!(actions[1], Action::ReleaseChild(Transport::Tcp)));
    assert!(matches!(actions[2], Action::RemoveState(t) if t == token));
    assert_eq!(format!("{:?}", actions[3]), cancel);
    assert!(matches!(actions[4], Action::HolePunchDone(Err(NatError::HolePunchFailed))));
}

#[test]
fn punch_hole_without_a_timer_terminates_and_surfaces_the_error() {
    let token = Token(15);
    let mut mediator = ready(token, true, false);
    let actions = mediator.punch_hole(Err(NatError::from(TimerError)), false, false);
    assert_eq!(mediator.phase(), Phase::Terminated);
    assert_eq!(actions.len(), 3);
    assert!(matches!(actions[0], Action::RemoveState(t) if t == token));
    assert!(matches!(actions[1], Action::TerminateChild(Transport::Udp)));
    assert!(matches!(actions[2], Action::HolePunchDone(Err(NatError::Timer(_)))));
    assert!(!mediator.has_child(Transport::Udp));
}

#[test]
fn hole_punch_waits_for_the_other_transport() {
    let mut mediator = punching(Token(1), true, true);
    let actions = mediator.handle_udp_hole_punch(Err(NatError::UdpHolePunchFailed));
    assert_eq!(actions.len(), 1);
    assert!(matches!(actions[0], Action::ReleaseChild(Transport::Udp)));
    assert_eq!(mediator.phase(), Phase::HolePunching);
    assert!(!mediator.has_child(Transport::Udp));
    assert!(mediator.has_child(Transport::Tcp));
}

#[test]
fn hole_punch_succeeds_with_one_live_socket() {
    let token = Token(16);
    let mut mediator = punching(token, true, true);
    mediator.handle_udp_hole_punch(Err(NatError::UdpHolePunchFailed));
    let stream = tcp_stream();
    let bound = stream.local_addr().unwrap();
    let mut actions = mediator.handle_tcp_hole_punch(Ok((stream, Token(77))));
    assert_eq!(mediator.phase(), Phase::Terminated);
    assert_eq!(actions.len(), 4);
    assert_eq!(done_count(&actions), 1);
    assert_eq!(removals(&actions), 1);
    assert!(matches!(actions[0], Action::ReleaseChild(Transport::Tcp)));
    assert!(matches!(actions[2], Action::RemoveState(t) if t == token));
    assert!(matches!(actions[3], Action::CancelTimeout(_)));
    match actions.remove(1) {
        Action::HolePunchDone(Ok(info)) => {
            assert!(info.udp.is_none());
            let (stream, registered) = info.tcp.unwrap();
            assert_eq!(stream.local_addr().unwrap(), bound);
            assert_eq!(registered, Token(77));
        }
        other => panic!("unexpected {:?}", other),
    }
}

#[test]
fn hole_punch_fails_when_every_transport_failed() {
    let token = Token(17);
    let mut mediator = punching(token, true, true);
    mediator.handle_tcp_hole_punch(Err(NatError::Unknown));
    let actions = mediator.handle_udp_hole_punch(Err(NatError::UdpHolePunchFailed));
    assert_eq!(mediator.phase(), Phase::Terminated);
    assert_eq!(actions.len(), 4);
    assert!(matches!(actions[0], Action::ReleaseChild(Transport::Udp)));
    assert!(matches!(actions[1], Action::HolePunchDone(Err(NatError::HolePunchFailed))));
    assert!(matches!(actions[2], Action::RemoveState(t) if t == token));
    assert!(matches!(actions[3], Action::CancelTimeout(_)));
}

#[test]
fn hole_punch_resolves_once_and_terminates_once() {
    let mut mediator = punching(Token(1), true, true);
    let mut done = 0;
    let mut removed = 0;
    for actions in [
        mediator.handle_udp_hole_punch(Ok((udp_socket(), Token(2)))),
        mediator.handle_tcp_hole_punch(Err(NatError::Unknown)),
        mediator.handle_tcp_hole_punch(Ok((tcp_stream(), Token(3)))),
        mediator.handle_udp_hole_punch(Err(NatError::Unknown)),
        mediator.timeout(TIMER_ID, None, None),
        mediator.terminate(),
    ] {
        done += done_count(&actions);
        removed += removals(&actions);
    }
    assert_eq!(done, 1);
    assert_eq!(removed, 1);
    assert_eq!(mediator.phase(), Phase::Terminated);
}

#[test]
fn hole_punch_report_out_of_phase_is_ignored() {
    let mut mediator = ready(Token(1), true, true);
    assert!(mediator.handle_udp_hole_punch(Ok((udp_socket(), Token(2)))).is_empty());
    assert!(mediator.handle_tcp_hole_punch(Err(NatError::Unknown)).is_empty());
    assert_eq!(mediator.phase(), Phase::ReadyToHolePunch);
    assert!(mediator.has_child(Transport::Udp));
    assert!(mediator.has_child(Transport::Tcp));
}

#[test]
fn hole_punch_timeout_hands_out_what_was_gathered() {
    let token = Token(18);
    let mut mediator = punching(token, true, true);
    let socket = udp_socket();
    let bound = socket.local_addr().unwrap();
    assert_eq!(mediator.handle_udp_hole_punch(Ok((socket, Token(5)))).len(), 1);
    assert_eq!(mediator.phase(), Phase::HolePunching);

    let mut actions = mediator.timeout(TIMER_ID, None, None);
    assert_eq!(mediator.phase(), Phase::Terminated);
    assert_eq!(actions.len(), 4);
    assert!(matches!(actions[1], Action::RemoveState(t) if t == token));
    assert!(matches!(actions[2], Action::CancelTimeout(_)));
    assert!(matches!(actions[3], Action::TerminateChild(Transport::Tcp)));
    match actions.remove(0) {
        Action::HolePunchDone(Ok(info)) => {
            assert!(info.tcp.is_none());
            let (socket, registered) = info.udp.unwrap();
            assert_eq!(socket.local_addr().unwrap(), bound);
            assert_eq!(registered, Token(5));
        }
        other => panic!("unexpected {:?}", other),
    }
    assert!(!mediator.has_child(Transport::Tcp));
}

#[test]
fn hole_punch_timeout_with_nothing_gathered_fails() {
    let token = Token(19);
    let mut mediator = punching(token, true, false);
    let actions = mediator.timeout(TIMER_ID, None, None);
    assert_eq!(mediator.phase(), Phase::Terminated);
    assert_eq!(actions.len(), 4);
    assert!(matches!(actions[0], Action::HolePunchDone(Err(NatError::HolePunchFailed))));
    assert!(matches!(actions[1], Action::RemoveState(t) if t == token));
    assert!(matches!(actions[2], Action::CancelTimeout(_)));
    assert!(matches!(actions[3], Action::TerminateChild(Transport::Udp)));
}

#[test]
fn hole_punch_timer_with_another_identifier_is_ignored() {
    let mut mediator = punching(Token(1), true, false);
    assert!(mediator.timeout(3, None, None).is_empty());
    assert_eq!(mediator.phase(), Phase::HolePunching);
    assert!(mediator.has_child(Transport::Udp));
}

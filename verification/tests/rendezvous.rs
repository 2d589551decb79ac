use mio::timer::{Timeout, Timer};
use mio::Token;
use p2p::addr::SocketAddr;
use p2p::error::NatError;
use p2p::hole_punch::{
    Action, HolePunchMediator, Phase, RendezvousInfo, Transport, RENDEZVOUS_TIMEOUT_SEC, TIMER_ID,
};
use std::time::Duration;

fn armed(secs: u64) -> Timeout {
    let mut timer: Timer<()> = Timer::default();
    timer.set_timeout(Duration::from_secs(secs), ()).unwrap()
}

fn v4(ip: u32, port: u16) -> SocketAddr {
    SocketAddr::V4 { ip, port }
}

fn v6(ip: u128, port: u16) -> SocketAddr {
    SocketAddr::V6 { ip, port, flowinfo: 0, scope_id: 0 }
}

fn started(token: Token, udp: bool, tcp: bool) -> HolePunchMediator {
    let mut mediator = HolePunchMediator::new(token);
    mediator.start(armed(8), udp, tcp).unwrap();
    mediator
}

fn done_count(actions: &[Action]) -> usize {
    actions.iter().filter(|a| matches!(a, Action::RendezvousDone(_))).count()
}

#[test]
fn rendezvous_info_defaults_to_no_addresses() {
    let info = RendezvousInfo::default();
    assert!(info.udp.is_empty());
    assert!(info.tcp.is_empty());
}

#[test]
fn rendezvous_timer_is_the_configured_or_the_default_one() {
    let mediator = HolePunchMediator::new(Token(3));
    let request = mediator.rendezvous_timer(None).unwrap();
    assert_eq!(request.secs, RENDEZVOUS_TIMEOUT_SEC);
    assert_eq!(request.secs, 8);
    assert_eq!(request.timer.associated_nat_state, Token(3));
    assert_eq!(request.timer.timer_id, TIMER_ID);
    assert_eq!(request.timer.timer_id, 0);
    let request = mediator.rendezvous_timer(Some(3)).unwrap();
    assert_eq!(request.secs, 3);
    let request = mediator.rendezvous_timer(Some(0)).unwrap();
    assert_eq!(request.secs, 0);
}

#[test]
fn rendezvous_timer_is_asked_for_once() {
    let mut mediator = started(Token(3), true, false);
    assert!(matches!(mediator.rendezvous_timer(None), Err(NatError::InvalidState)));
    mediator.handle_udp_rendezvous(Ok(vec![v4(1, 1)]));
    assert!(matches!(mediator.rendezvous_timer(Some(4)), Err(NatError::InvalidState)));
    mediator.terminate();
    assert!(matches!(mediator.rendezvous_timer(None), Err(NatError::InvalidState)));
}

#[test]
fn start_without_a_transport_fails() {
    let mut mediator = HolePunchMediator::new(Token(1));
    let result = mediator.start(armed(8), false, false);
    assert!(matches!(result, Err(NatError::RendezvousFailed)));
    assert_eq!(mediator.phase(), Phase::Idle);
    assert!(!mediator.has_child(Transport::Udp));
    assert!(!mediator.has_child(Transport::Tcp));
}

#[test]
fn start_records_the_started_transports() {
    let mediator = started(Token(1), false, true);
    assert_eq!(mediator.phase(), Phase::Rendezvous);
    assert_eq!(mediator.token(), Token(1));
    assert!(!mediator.has_child(Transport::Udp));
    assert!(mediator.has_child(Transport::Tcp));
}

#[test]
fn start_is_refused_once_started() {
    let mut mediator = started(Token(1), true, true);
    let again = mediator.start(armed(8), true, false);
    assert!(matches!(again, Err(NatError::InvalidState)));
    assert_eq!(mediator.phase(), Phase::Rendezvous);
    assert!(mediator.has_child(Transport::Tcp));

    mediator.terminate();
    let again = mediator.start(armed(8), true, true);
    assert!(matches!(again, Err(NatError::InvalidState)));
    assert_eq!(mediator.phase(), Phase::Terminated);
    assert!(!mediator.has_child(Transport::Udp));
}

#[test]
fn finish_start_leaves_a_registered_mediator_alone() {
    let mut mediator = started(Token(1), true, false);
    let (result, actions) = mediator.finish_start(true);
    assert!(result.is_ok());
    assert!(actions.is_empty());
    assert_eq!(mediator.phase(), Phase::Rendezvous);
    assert!(mediator.has_child(Transport::Udp));
}

#[test]
fn finish_start_terminates_an_unregistered_mediator() {
    let token = Token(12);
    let mut mediator = HolePunchMediator::new(token);
    let timeout = armed(8);
    let cancel = format!("{:?}", Action::CancelTimeout(timeout.clone()));
    mediator.start(timeout, true, true).unwrap();
    let (result, actions) = mediator.finish_start(false);
    assert!(matches!(result, Err(NatError::HolePunchMediatorFailedToStart)));
    assert_eq!(mediator.phase(), Phase::Terminated);
    assert_eq!(actions.len(), 4);
    assert!(matches!(actions[0], Action::RemoveState(t) if t == token));
    assert_eq!(format!("{:?}", actions[1]), cancel);
    assert!(matches!(actions[2], Action::TerminateChild(Transport::Udp)));
    assert!(matches!(actions[3], Action::TerminateChild(Transport::Tcp)));
}

#[test]
fn rendezvous_waits_for_the_other_transport() {
    let mut mediator = started(Token(1), true, true);
    let actions = mediator.handle_tcp_rendezvous(Ok(vec![v6(1, 9)]));
    assert!(actions.is_empty());
    assert_eq!(mediator.phase(), Phase::Rendezvous);

    let mut actions = mediator.handle_udp_rendezvous(Ok(vec![v4(5, 6)]));
    assert_eq!(mediator.phase(), Phase::ReadyToHolePunch);
    assert_eq!(done_count(&actions), 1);
    match actions.pop() {
        Some(Action::RendezvousDone(Ok((handle, info)))) => {
            assert_eq!(info.udp, vec![v4(5, 6)]);
            assert_eq!(info.tcp, vec![v6(1, 9)]);
            assert_eq!(handle.mediator_token(), Token(1));
        }
        other => panic!("unexpected {:?}", other),
    }
    assert!(matches!(actions.pop(), Some(Action::CancelTimeout(_))));
    assert!(actions.is_empty());
}

#[test]
fn rendezvous_succeeds_with_one_transport_failed() {
    let mut mediator = started(Token(1), true, true);
    let actions = mediator.handle_udp_rendezvous(Err(NatError::UdpRendezvousFailed));
    assert_eq!(actions.len(), 1);
    assert!(matches!(actions[0], Action::ReleaseChild(Transport::Udp)));
    assert_eq!(mediator.phase(), Phase::Rendezvous);
    assert!(!mediator.has_child(Transport::Udp));

    let mut actions = mediator.handle_tcp_rendezvous(Ok(vec![v4(7, 7)]));
    assert_eq!(mediator.phase(), Phase::ReadyToHolePunch);
    assert_eq!(actions.len(), 2);
    match actions.pop() {
        Some(Action::RendezvousDone(Ok((_, info)))) => {
            assert!(info.udp.is_empty());
            assert_eq!(info.tcp, vec![v4(7, 7)]);
        }
        other => panic!("unexpected {:?}", other),
    }
    assert!(mediator.has_child(Transport::Tcp));
    assert!(!mediator.has_child(Transport::Udp));
}

#[test]
fn rendezvous_keeps_addresses_of_a_transport_that_fails_later() {
    let mut mediator = started(Token(1), true, true);
    assert!(mediator.handle_udp_rendezvous(Ok(vec![v4(1, 1)])).is_empty());
    let actions = mediator.handle_udp_rendezvous(Err(NatError::Unknown));
    assert_eq!(actions.len(), 1);
    assert_eq!(mediator.phase(), Phase::Rendezvous);
    let mut actions = mediator.handle_tcp_rendezvous(Err(NatError::Unknown));
    assert_eq!(mediator.phase(), Phase::ReadyToHolePunch);
    assert_eq!(actions.len(), 3);
    assert!(matches!(actions[0], Action::ReleaseChild(Transport::Tcp)));
    match actions.pop() {
        Some(Action::RendezvousDone(Ok((_, info)))) => {
            assert_eq!(info.udp, vec![v4(1, 1)]);
            assert!(info.tcp.is_empty());
        }
        other => panic!("unexpected {:?}", other),
    }
}

#[test]
fn rendezvous_fails_when_every_transport_failed() {
    let token = Token(21);
    let mut mediator = started(token, true, true);
    mediator.handle_tcp_rendezvous(Err(NatError::Unknown));
    let actions = mediator.handle_udp_rendezvous(Err(NatError::Unknown));
    assert_eq!(mediator.phase(), Phase::Terminated);
    assert_eq!(actions.len(), 4);
    assert!(matches!(actions[0], Action::ReleaseChild(Transport::Udp)));
    assert!(matches!(actions[1], Action::RendezvousDone(Err(NatError::RendezvousFailed))));
    assert!(matches!(actions[2], Action::RemoveState(t) if t == token));
    assert!(matches!(actions[3], Action::CancelTimeout(_)));
}

#[test]
fn rendezvous_with_an_empty_list_and_nothing_else_fails() {
    let token = Token(22);
    let mut mediator = started(token, true, false);
    let actions = mediator.handle_udp_rendezvous(Ok(vec![]));
    assert_eq!(mediator.phase(), Phase::Terminated);
    assert_eq!(actions.len(), 4);
    assert!(matches!(actions[0], Action::RendezvousDone(Err(NatError::RendezvousFailed))));
    assert!(matches!(actions[1], Action::RemoveState(t) if t == token));
    assert!(matches!(actions[2], Action::CancelTimeout(_)));
    assert!(matches!(actions[3], Action::TerminateChild(Transport::Udp)));
    assert!(!mediator.has_child(Transport::Udp));
}

#[test]
fn rendezvous_with_an_empty_list_and_an_address_elsewhere_succeeds() {
    let mut mediator = started(Token(1), true, true);
    assert!(mediator.handle_udp_rendezvous(Ok(vec![])).is_empty());
    let mut actions = mediator.handle_tcp_rendezvous(Ok(vec![v4(3, 3)]));
    assert_eq!(mediator.phase(), Phase::ReadyToHolePunch);
    match actions.pop() {
        Some(Action::RendezvousDone(Ok((_, info)))) => {
            assert!(info.udp.is_empty());
            assert_eq!(info.tcp, vec![v4(3, 3)]);
        }
        other => panic!("unexpected {:?}", other),
    }
    assert!(mediator.has_child(Transport::Udp));
}

#[test]
fn rendezvous_resolves_once() {
    let mut mediator = started(Token(1), true, true);
    let mut total = 0;
    total += done_count(&mediator.handle_udp_rendezvous(Ok(vec![v4(1, 1)])));
    total += done_count(&mediator.handle_tcp_rendezvous(Ok(vec![v4(2, 2)])));
    assert_eq!(total, 1);
    // Late and repeated reports find the phase over and are ignored.
    let late = mediator.handle_udp_rendezvous(Ok(vec![v4(9, 9)]));
    assert!(late.is_empty());
    let late = mediator.handle_tcp_rendezvous(Err(NatError::Unknown));
    assert!(late.is_empty());
    assert_eq!(mediator.phase(), Phase::ReadyToHolePunch);
    assert!(mediator.has_child(Transport::Tcp));
    let late = mediator.timeout(7, None, None);
    assert!(late.is_empty());
    assert_eq!(mediator.phase(), Phase::ReadyToHolePunch);
}

#[test]
fn rendezvous_report_before_the_start_is_ignored() {
    let mut mediator = HolePunchMediator::new(Token(1));
    assert!(mediator.handle_udp_rendezvous(Ok(vec![v4(1, 1)])).is_empty());
    assert!(mediator.handle_tcp_rendezvous(Err(NatError::Unknown)).is_empty());
    assert_eq!(mediator.phase(), Phase::Idle);
}

#[test]
fn rendezvous_timeout_uses_what_the_children_answer() {
    let mut mediator = started(Token(1), true, true);
    let mut actions =
        mediator.timeout(TIMER_ID, Some(Err(NatError::Unknown)), Some(Ok(vec![v4(4, 4), v4(5, 5)])));
    assert_eq!(mediator.phase(), Phase::ReadyToHolePunch);
    assert_eq!(actions.len(), 3);
    assert!(matches!(actions[0], Action::ReleaseChild(Transport::Udp)));
    assert!(matches!(actions[1], Action::CancelTimeout(_)));
    match actions.pop() {
        Some(Action::RendezvousDone(Ok((_, info)))) => {
            assert!(info.udp.is_empty());
            assert_eq!(info.tcp, vec![v4(4, 4), v4(5, 5)]);
        }
        other => panic!("unexpected {:?}", other),
    }
}

#[test]
fn rendezvous_timeout_counts_a_silent_child_as_failed() {
    let mut mediator = started(Token(1), true, true);
    assert!(mediator.handle_udp_rendezvous(Ok(vec![v4(1, 1)])).is_empty());
    let actions = mediator.timeout(TIMER_ID, Some(Ok(vec![v4(1, 2)])), None);
    assert_eq!(mediator.phase(), Phase::ReadyToHolePunch);
    assert_eq!(done_count(&actions), 1);
    assert!(matches!(actions[0], Action::ReleaseChild(Transport::Tcp)));
    match &actions[2] {
        Action::RendezvousDone(Ok((_, info))) => {
            assert_eq!(info.udp, vec![v4(1, 2)]);
            assert!(info.tcp.is_empty());
        }
        other => panic!("unexpected {:?}", other),
    }
    assert!(mediator.has_child(Transport::Udp));
    assert!(!mediator.has_child(Transport::Tcp));
}

#[test]
fn timer_with_another_identifier_is_ignored() {
    let mut mediator = started(Token(1), true, false);
    let actions = mediator.timeout(1, Some(Err(NatError::Unknown)), None);
    assert!(actions.is_empty());
    assert_eq!(mediator.phase(), Phase::Rendezvous);
    assert!(mediator.has_child(Transport::Udp));
}

#[test]
fn children_are_asked_on_the_rendezvous_timer_only() {
    let idle = HolePunchMediator::new(Token(1));
    assert!(!idle.asks_on_timeout(TIMER_ID, Transport::Udp));

    let mut mediator = started(Token(1), true, false);
    assert!(mediator.asks_on_timeout(TIMER_ID, Transport::Udp));
    assert!(!mediator.asks_on_timeout(TIMER_ID, Transport::Tcp));
    assert!(!mediator.asks_on_timeout(2, Transport::Udp));

    mediator.handle_udp_rendezvous(Ok(vec![v4(1, 1)]));
    assert_eq!(mediator.phase(), Phase::ReadyToHolePunch);
    assert!(mediator.has_child(Transport::Udp));
    assert!(!mediator.asks_on_timeout(TIMER_ID, Transport::Udp));
}

#[test]
fn answer_of_a_child_that_is_not_asked_changes_nothing() {
    let mut with = started(Token(1), false, true);
    let mut without = started(Token(1), false, true);
    let a = with.timeout(TIMER_ID, Some(Ok(vec![v4(9, 9)])), Some(Ok(vec![v4(4, 4)])));
    let b = without.timeout(TIMER_ID, None, Some(Ok(vec![v4(4, 4)])));
    assert_eq!(a.len(), b.len());
    assert_eq!(with.phase(), without.phase());
    match (&a[1], &b[1]) {
        (Action::RendezvousDone(Ok((_, x))), Action::RendezvousDone(Ok((_, y)))) => {
            assert!(x.udp.is_empty());
            assert_eq!(x.udp, y.udp);
            assert_eq!(x.tcp, y.tcp);
        }
        other => panic!("unexpected {:?}", other),
    }
}

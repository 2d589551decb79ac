//! What holds of every mediator, whatever its driver reports.

use vstd::prelude::*;
use crate::addr::SocketAddr;
use crate::error::NatError;
use crate::hole_punch::{Transport, TIMER_ID};
use crate::model::{
    count, one, punch_requests, undisturbed, ActionKind, ActionView, Event, MediatorView,
    PunchRequestView, RendezvousInfoView, StateView, Step,
};
use mio::tcp::TcpStream;
use mio::timer::Timeout;
use mio::udp::UdpSocket;
use mio::Token;

verus! {

/// The number of actions of a kind in a list that ends with `last`.
proof fn lemma_count_push(actions: Seq<ActionView>, last: ActionView, kind: ActionKind)
    ensures
        count(actions.push(last), kind) == count(actions, kind) + if last.kind() == kind {
            1nat
        } else {
            0nat
        },
{
    assert(actions.push(last).drop_last() =~= actions);
}

/// The number of actions of a kind in two lists, one after the other.
proof fn lemma_count_add(first: Seq<ActionView>, second: Seq<ActionView>, kind: ActionKind)
    ensures
        count(first + second, kind) == count(first, kind) + count(second, kind),
    decreases second.len(),
{
    if second.len() == 0 {
        assert(first + second =~= first);
    } else {
        lemma_count_add(first, second.drop_last(), kind);
        assert((first + second).drop_last() =~= first + second.drop_last());
    }
}

/// The number of actions of a kind in a list of none, of one and of two.
proof fn lemma_count_few(a: ActionView, b: ActionView, kind: ActionKind)
    ensures
        count(seq![], kind) == 0,
        count(seq![a], kind) == if a.kind() == kind {
            1nat
        } else {
            0nat
        },
        count(seq![a, b], kind) == count(seq![a], kind) + count(seq![b], kind),
{
    assert(seq![a] =~= Seq::<ActionView>::empty().push(a));
    lemma_count_push(Seq::empty(), a, kind);
    assert(seq![b] =~= Seq::<ActionView>::empty().push(b));
    lemma_count_push(Seq::empty(), b, kind);
    assert(seq![a, b] =~= seq![a].push(b));
    lemma_count_push(seq![a], b, kind);
}

/// Termination deregisters a mediator that was not terminated, once, and
/// invokes no continuation.
pub proof fn law_terminate_releases_once(m: MediatorView)
    ensures
        m.terminate().next.state is Terminated,
        m.wf() ==> m.terminate().next.childless(),
        m.terminate().next.token == m.token,
        count(m.terminate().actions, ActionKind::RemoveState) == one(!(m.state is Terminated)),
        !(m.state is Terminated) ==> m.terminate().actions[0] == ActionView::RemoveState(m.token),
        count(m.terminate().actions, ActionKind::CancelTimeout) == one(m.state.timer() is Some),
        count(m.terminate().actions, ActionKind::ReleaseChild) == 0,
        count(m.terminate().actions, ActionKind::RendezvousDone) == 0,
        count(m.terminate().actions, ActionKind::HolePunchDone) == 0,
        m.wf() ==> m.terminate().next.wf(),
{
    let remove = ActionView::RemoveState(m.token);
    let udp = ActionView::TerminateChild(Transport::Udp);
    let tcp = ActionView::TerminateChild(Transport::Tcp);
    assert forall|kind: ActionKind|
        count(m.terminate_children(), kind) == (if kind == ActionKind::TerminateChild {
            (if m.udp_child {
                1nat
            } else {
                0nat
            }) + (if m.tcp_child {
                1nat
            } else {
                0nat
            })
        } else {
            0nat
        }) by {
        lemma_count_few(udp, tcp, kind);
        lemma_count_few(tcp, udp, kind);
        let first = if m.udp_child {
            seq![udp]
        } else {
            seq![]
        };
        let second = if m.tcp_child {
            seq![tcp]
        } else {
            seq![]
        };
        lemma_count_add(first, second, kind);
    }
    assert forall|kind: ActionKind|
        count(m.cancel_timer(), kind) == (if kind == ActionKind::CancelTimeout
            && m.state.timer() is Some {
            1nat
        } else {
            0nat
        }) by {
        match m.state.timer() {
            Some(timeout) => lemma_count_few(ActionView::CancelTimeout(timeout), remove, kind),
            None => lemma_count_few(remove, remove, kind),
        }
    }
    assert forall|kind: ActionKind|
        count(m.terminate().actions, kind) == (if m.state is Terminated {
            0nat
        } else {
            count(seq![remove], kind) + count(m.cancel_timer(), kind) + count(
                m.terminate_children(),
                kind,
            )
        }) by {
        lemma_count_few(remove, remove, kind);
        lemma_count_add(seq![remove], m.cancel_timer(), kind);
        lemma_count_add(seq![remove] + m.cancel_timer(), m.terminate_children(), kind);
    }
    lemma_count_few(remove, remove, ActionKind::RemoveState);
    lemma_count_few(remove, remove, ActionKind::CancelTimeout);
    lemma_count_few(remove, remove, ActionKind::ReleaseChild);
    lemma_count_few(remove, remove, ActionKind::RendezvousDone);
    lemma_count_few(remove, remove, ActionKind::HolePunchDone);
}

/// Terminating twice in a row: the second termination changes nothing and
/// asks for nothing, so token, timer and children are released once.
pub proof fn law_terminate_is_idempotent(m: MediatorView)
    ensures
        m.terminate().next.terminate() == m.terminate().next.stay(),
{
}

/// What the counts of a transition's actions have to do with the phases
/// before and after it. `punch` says that the transition answers a request
/// to begin the punch phase, `termination` that it is a termination asked
/// for from outside.
spec fn tallies(m: MediatorView, s: Step, punch: bool, termination: bool) -> bool {
    &&& count(s.actions, ActionKind::RemoveState) == one(
        !(m.state is Terminated) && s.next.state is Terminated,
    )
    &&& count(s.actions, ActionKind::RendezvousDone) == one(
        !termination && m.state is Rendezvous && !(s.next.state is Rendezvous),
    )
    &&& termination ==> count(s.actions, ActionKind::HolePunchDone) == 0
    &&& !termination ==> count(s.actions, ActionKind::HolePunchDone) + one(
        s.next.state is HolePunching,
    ) == one(punch) + one(m.state is HolePunching)
    &&& !punch ==> count(s.actions, ActionKind::CancelTimeout) == one(
        m.state.timer() is Some && s.next.state.timer() is None,
    )
    &&& count(s.actions, ActionKind::CancelTimeout) <= 1
}

proof fn lemma_stay_tallies(m: MediatorView)
    ensures
        tallies(m, m.stay(), false, false),
        forall|kind: ActionKind| count(m.stay().actions, kind) == 0,
{
}

proof fn lemma_terminate_tallies(m: MediatorView)
    ensures
        tallies(m, m.terminate(), false, true),
{
    law_terminate_releases_once(m);
}

proof fn lemma_rendezvous_report_tallies(m: MediatorView, transport: Transport, outcome: Option<Seq<SocketAddr>>)
    ensures
        tallies(m, m.rendezvous_report(transport, outcome), false, false),
{
    let s = m.rendezvous_report(transport, outcome);
    if m.state is Rendezvous {
        let merged = m.merged(transport, outcome);
        let decided = merged.resolve_rendezvous();
        let released = if outcome is None {
            m.release(transport)
        } else {
            seq![]
        };
        let release = ActionView::ReleaseChild(transport);
        law_terminate_releases_once(merged);
        assert forall|kind: ActionKind| kind != ActionKind::ReleaseChild implies count(s.actions, kind)
            == count(decided.actions, kind) by {
            lemma_count_few(release, release, kind);
            lemma_count_add(released, decided.actions, kind);
        }
        assert forall|kind: ActionKind|
            kind != ActionKind::TerminateChild && kind != ActionKind::ReleaseChild implies count(
            decided.actions,
            kind,
        ) == (if merged.awaits(Transport::Udp) || merged.awaits(Transport::Tcp) {
            0nat
        } else if merged.state->Rendezvous_info.has_address() {
            one(kind == ActionKind::CancelTimeout) + one(kind == ActionKind::RendezvousDone)
        } else {
            one(kind == ActionKind::RendezvousDone) + count(merged.terminate().actions, kind)
        }) by {
            let cancel = ActionView::CancelTimeout(merged.state->Rendezvous_timeout);
            let done = ActionView::RendezvousDone(
                Ok((merged.token, merged.state->Rendezvous_info)),
            );
            let failed = ActionView::RendezvousDone(Err(NatError::RendezvousFailed));
            lemma_count_few(cancel, done, kind);
            lemma_count_few(done, failed, kind);
            lemma_count_few(failed, failed, kind);
            lemma_count_add(seq![failed], merged.terminate().actions, kind);
        }
    } else {
        lemma_stay_tallies(m);
    }
}

proof fn lemma_conclude_hole_punch_tallies(m: MediatorView)
    requires
        m.state is HolePunching,
    ensures
        tallies(m, m.conclude_hole_punch(), false, false),
        count(m.conclude_hole_punch().actions, ActionKind::ReleaseChild) == 0,
{
    let info = m.state->HolePunching_info;
    let done = ActionView::HolePunchDone(
        if info.has_socket() {
            Ok(info)
        } else {
            Err(NatError::HolePunchFailed)
        },
    );
    law_terminate_releases_once(m);
    assert forall|kind: ActionKind|
        count(m.conclude_hole_punch().actions, kind) == one(kind == ActionKind::HolePunchDone)
            + count(m.terminate().actions, kind) by {
        lemma_count_few(done, done, kind);
        lemma_count_add(seq![done], m.terminate().actions, kind);
    }
}

proof fn lemma_udp_hole_punch_report_tallies(m: MediatorView, outcome: Option<(UdpSocket, Token)>)
    ensures
        tallies(m, m.udp_hole_punch_report(outcome), false, false),
{
    if m.state is HolePunching {
        let punched = m.punched_udp(outcome);
        let decided = punched.resolve_hole_punch();
        let release = ActionView::ReleaseChild(Transport::Udp);
        lemma_conclude_hole_punch_tallies(punched);
        lemma_stay_tallies(punched);
        assert forall|kind: ActionKind| kind != ActionKind::ReleaseChild implies count(
            m.udp_hole_punch_report(outcome).actions,
            kind,
        ) == count(decided.actions, kind) by {
            lemma_count_few(release, release, kind);
            lemma_count_add(m.release(Transport::Udp), decided.actions, kind);
        }
    } else {
        lemma_stay_tallies(m);
    }
}

proof fn lemma_tcp_hole_punch_report_tallies(m: MediatorView, outcome: Option<(TcpStream, Token)>)
    ensures
        tallies(m, m.tcp_hole_punch_report(outcome), false, false),
{
    if m.state is HolePunching {
        let punched = m.punched_tcp(outcome);
        let decided = punched.resolve_hole_punch();
        let release = ActionView::ReleaseChild(Transport::Tcp);
        lemma_conclude_hole_punch_tallies(punched);
        lemma_stay_tallies(punched);
        assert forall|kind: ActionKind| kind != ActionKind::ReleaseChild implies count(
            m.tcp_hole_punch_report(outcome).actions,
            kind,
        ) == count(decided.actions, kind) by {
            lemma_count_few(release, release, kind);
            lemma_count_add(m.release(Transport::Tcp), decided.actions, kind);
        }
    } else {
        lemma_stay_tallies(m);
    }
}

proof fn lemma_punch_hole_tallies(m: MediatorView, timeout: Result<Timeout, NatError>, udp_started: bool, tcp_started: bool)
    ensures
        tallies(m, m.punch_hole(timeout, udp_started, tcp_started), true, false),
{
    let s = m.punch_hole(timeout, udp_started, tcp_started);
    let failed = ActionView::HolePunchDone(Err(NatError::HolePunchFailed));
    if !(m.state is ReadyToHolePunch) {
        assert forall|kind: ActionKind|
            count(s.actions, kind) == one(kind == ActionKind::HolePunchDone) by {
            lemma_count_few(failed, failed, kind);
        }
    } else {
        match timeout {
            Err(e) => {
                let surfaced = ActionView::HolePunchDone(Err(e));
                law_terminate_releases_once(m);
                assert forall|kind: ActionKind|
                    count(s.actions, kind) == count(m.terminate().actions, kind) + one(
                        kind == ActionKind::HolePunchDone,
                    ) by {
                    lemma_count_few(surfaced, surfaced, kind);
                    lemma_count_add(m.terminate().actions, seq![surfaced], kind);
                }
            },
            Ok(timeout) => {
                let punching = m.punching(timeout, udp_started, tcp_started);
                let released = m.release_unstarted(udp_started, tcp_started);
                let udp = ActionView::ReleaseChild(Transport::Udp);
                let tcp = ActionView::ReleaseChild(Transport::Tcp);
                law_terminate_releases_once(punching);
                assert forall|kind: ActionKind| kind != ActionKind::ReleaseChild implies count(
                    released,
                    kind,
                ) == 0 by {
                    lemma_count_few(udp, tcp, kind);
                    lemma_count_few(tcp, udp, kind);
                    let first = if m.udp_child && !udp_started {
                        seq![udp]
                    } else {
                        seq![]
                    };
                    let second = if m.tcp_child && !tcp_started {
                        seq![tcp]
                    } else {
                        seq![]
                    };
                    lemma_count_add(first, second, kind);
                }
                assert forall|kind: ActionKind| kind != ActionKind::ReleaseChild implies count(
                    s.actions,
                    kind,
                ) == (if punching.childless() {
                    count(punching.terminate().actions, kind) + one(
                        kind == ActionKind::HolePunchDone,
                    )
                } else {
                    0nat
                }) by {
                    lemma_count_few(failed, failed, kind);
                    lemma_count_add(released, punching.terminate().actions, kind);
                    lemma_count_add(released + punching.terminate().actions, seq![failed], kind);
                }
            },
        }
    }
}

proof fn lemma_timeout_tallies(m: MediatorView, timer_id: u8, udp: Option<Seq<SocketAddr>>, tcp: Option<Seq<SocketAddr>>)
    ensures
        tallies(m, m.timeout(timer_id, udp, tcp), false, false),
{
    if timer_id != TIMER_ID {
        lemma_stay_tallies(m);
    } else {
        match m.state {
            StateView::Rendezvous { .. } => {
                let first = if m.udp_child {
                    m.rendezvous_report(Transport::Udp, udp)
                } else {
                    m.stay()
                };
                let second = if first.next.tcp_child {
                    first.next.rendezvous_report(Transport::Tcp, tcp)
                } else {
                    first.next.stay()
                };
                lemma_stay_tallies(m);
                lemma_stay_tallies(first.next);
                lemma_rendezvous_report_tallies(m, Transport::Udp, udp);
                lemma_rendezvous_report_tallies(first.next, Transport::Tcp, tcp);
                assert forall|kind: ActionKind|
                    count(m.timeout(timer_id, udp, tcp).actions, kind) == count(
                        first.actions,
                        kind,
                    ) + count(second.actions, kind) by {
                    lemma_count_add(first.actions, second.actions, kind);
                }
            },
            StateView::HolePunching { .. } => {
                lemma_conclude_hole_punch_tallies(m);
            },
            _ => {
                law_terminate_releases_once(m);
            },
        }
    }
}

/// How the counts of a transition's actions go with its phases, for every
/// transition.
proof fn lemma_step_tallies(m: MediatorView, event: Event)
    ensures
        tallies(m, m.step(event), event is PunchHole, event.terminates()),
{
    match event {
        Event::Start { timeout, udp_started, tcp_started } => {
            lemma_stay_tallies(m);
            lemma_stay_tallies(m.started(timeout, udp_started, tcp_started));
        },
        Event::FinishStart { registered } => {
            lemma_stay_tallies(m);
            lemma_terminate_tallies(m);
        },
        Event::Rendezvous { transport, outcome } => {
            lemma_rendezvous_report_tallies(m, transport, outcome);
        },
        Event::PunchHole { timeout, udp_started, tcp_started } => {
            lemma_punch_hole_tallies(m, timeout, udp_started, tcp_started);
        },
        Event::UdpHolePunch { outcome } => {
            lemma_udp_hole_punch_report_tallies(m, outcome);
        },
        Event::TcpHolePunch { outcome } => {
            lemma_tcp_hole_punch_report_tallies(m, outcome);
        },
        Event::Timeout { timer_id, udp, tcp } => {
            lemma_timeout_tallies(m, timer_id, udp, tcp);
        },
        Event::Terminate => {
            lemma_terminate_tallies(m);
        },
    }
}

/// What every transition keeps: the token, the order of the phases, the
/// timer while the phase stays, the absence of a child once it is gone, and
/// well-formedness.
spec fn orderly(m: MediatorView, s: Step) -> bool {
    &&& s.next.token == m.token
    &&& s.next.state.rank() >= m.state.rank()
    &&& s.next.state.rank() == m.state.rank() ==> s.next.state.timer() == m.state.timer()
    &&& !(m.state is Idle) ==> (s.next.udp_child ==> m.udp_child) && (s.next.tcp_child
        ==> m.tcp_child)
    &&& m.wf() ==> s.next.wf()
}

proof fn lemma_rendezvous_report_orderly(m: MediatorView, transport: Transport, outcome: Option<Seq<SocketAddr>>)
    ensures
        orderly(m, m.rendezvous_report(transport, outcome)),
{
}

proof fn lemma_timeout_orderly(m: MediatorView, timer_id: u8, udp: Option<Seq<SocketAddr>>, tcp: Option<Seq<SocketAddr>>)
    ensures
        orderly(m, m.timeout(timer_id, udp, tcp)),
{
    if timer_id == TIMER_ID && m.state is Rendezvous {
        let first = if m.udp_child {
            m.rendezvous_report(Transport::Udp, udp)
        } else {
            m.stay()
        };
        lemma_rendezvous_report_orderly(m, Transport::Udp, udp);
        lemma_rendezvous_report_orderly(first.next, Transport::Tcp, tcp);
    }
}

proof fn lemma_step_orderly(m: MediatorView, event: Event)
    ensures
        orderly(m, m.step(event)),
{
    match event {
        Event::Start { .. } => {},
        Event::FinishStart { .. } => {},
        Event::Rendezvous { transport, outcome } => {
            lemma_rendezvous_report_orderly(m, transport, outcome);
        },
        Event::PunchHole { .. } => {},
        Event::UdpHolePunch { .. } => {},
        Event::TcpHolePunch { .. } => {},
        Event::Timeout { timer_id, udp, tcp } => {
            lemma_timeout_orderly(m, timer_id, udp, tcp);
        },
        Event::Terminate => {},
    }
}

/// A transition invokes a continuation exactly when it ends the phase the
/// continuation belongs to, and then once. The rendezvous continuation is
/// invoked by the transition that leaves the rendezvous phase. The
/// hole-punch continuation is invoked by the request to begin the punch
/// phase if the phase cannot begin, and else by the transition that leaves
/// the phase. A termination asked for from outside invokes none. The
/// mediator is deregistered by the transition that terminates it.
pub proof fn law_continuations_go_with_phases(m: MediatorView, event: Event)
    ensures
        count(m.step(event).actions, ActionKind::RemoveState) == one(
            !(m.state is Terminated) && m.step(event).next.state is Terminated,
        ),
        count(m.step(event).actions, ActionKind::RendezvousDone) == one(
            !event.terminates() && m.state is Rendezvous && !(m.step(event).next.state
                is Rendezvous),
        ),
        event.terminates() ==> count(m.step(event).actions, ActionKind::HolePunchDone) == 0,
        !event.terminates() ==> count(m.step(event).actions, ActionKind::HolePunchDone) + one(
            m.step(event).next.state is HolePunching,
        ) == one(event is PunchHole) + one(m.state is HolePunching),
{
    lemma_step_tallies(m, event);
}

/// Every transition keeps a well-formed mediator well-formed: a mediator
/// that waits always has a child to wait for, and it holds no child before
/// its start or after its termination.
pub proof fn law_step_keeps_well_formed(m: MediatorView, event: Event)
    requires
        m.wf(),
    ensures
        m.step(event).next.wf(),
{
    lemma_step_orderly(m, event);
}

/// The phases are passed in order and none is entered twice. No transition
/// changes the token or leads back to an earlier phase; while the phase
/// stays, its timer stays; and once the mediator has started, no child
/// that is gone comes back.
pub proof fn law_phases_in_order(m: MediatorView, event: Event)
    ensures
        m.step(event).next.token == m.token,
        m.step(event).next.state.rank() >= m.state.rank(),
        m.step(event).next.state.rank() == m.state.rank() ==> m.step(event).next.state.timer()
            == m.state.timer(),
        !(m.state is Idle) ==> forall|transport: Transport|
            m.step(event).next.has_child(transport) ==> m.has_child(transport),
{
    lemma_step_orderly(m, event);
}

/// The rendezvous phase resolves on a report exactly when no child is
/// awaited any more, and then exactly once: with success, the handle and
/// the merged addresses if a transport's merged list is non-empty, with
/// `RendezvousFailed` and termination otherwise.
pub proof fn law_rendezvous_decision(m: MediatorView, transport: Transport, outcome: Option<Seq<SocketAddr>>)
    requires
        m.state is Rendezvous,
    ensures
        ({
            let merged = m.merged(transport, outcome);
            let info = merged.state->Rendezvous_info;
            let waiting = merged.awaits(Transport::Udp) || merged.awaits(Transport::Tcp);
            let step = m.rendezvous_report(transport, outcome);
            let released = if outcome is None {
                m.release(transport).len()
            } else {
                0
            };
            &&& count(step.actions, ActionKind::RendezvousDone) == one(!waiting)
            &&& waiting ==> step.next == merged
            &&& step.next.state is ReadyToHolePunch <==> !waiting && info.has_address()
            &&& step.next.state is Terminated <==> !waiting && !info.has_address()
            &&& !waiting && info.has_address() ==> step.actions.last()
                == ActionView::RendezvousDone(Ok((m.token, info)))
            &&& !waiting && !info.has_address() ==> step.actions[released as int]
                == ActionView::RendezvousDone(Err(NatError::RendezvousFailed))
        }),
{
    lemma_rendezvous_report_tallies(m, transport, outcome);
}

/// When the rendezvous timer expires, the phase resolves, whatever the
/// children answer: it is left, and its continuation is invoked once.
pub proof fn law_rendezvous_timeout_resolves(m: MediatorView, udp: Option<Seq<SocketAddr>>, tcp: Option<Seq<SocketAddr>>)
    requires
        m.wf(),
        m.state is Rendezvous,
    ensures
        m.timeout(TIMER_ID, udp, tcp).next.state is ReadyToHolePunch || m.timeout(
            TIMER_ID,
            udp,
            tcp,
        ).next.state is Terminated,
        count(m.timeout(TIMER_ID, udp, tcp).actions, ActionKind::RendezvousDone) == 1,
{
    lemma_timeout_tallies(m, TIMER_ID, udp, tcp);
    let first = if m.udp_child {
        m.rendezvous_report(Transport::Udp, udp)
    } else {
        m.stay()
    };
    lemma_rendezvous_report_orderly(m, Transport::Udp, udp);
    lemma_rendezvous_report_orderly(first.next, Transport::Tcp, tcp);
}

/// A request to begin the punch phase that reaches a mediator in any phase
/// but `ReadyToHolePunch` fails with `HolePunchFailed` and changes nothing.
pub proof fn law_punch_hole_needs_readiness(
    m: MediatorView,
    peers: RendezvousInfoView,
    timeout_sec: Option<u64>,
    timeout: Result<Timeout, NatError>,
    udp_started: bool,
    tcp_started: bool,
)
    requires
        !(m.state is ReadyToHolePunch),
    ensures
        m.hole_punch_request(peers, timeout_sec) == Err::<PunchRequestView, NatError>(
            NatError::HolePunchFailed,
        ),
        m.punch_hole(timeout, udp_started, tcp_started).next == m,
        m.punch_hole(timeout, udp_started, tcp_started).actions == seq![
            ActionView::HolePunchDone(Err(NatError::HolePunchFailed)),
        ],
{
}

/// The punch phase resolves on the UDP child's report exactly when no child
/// is left, and then exactly once: with the merged sockets if a transport
/// has a live one, with `HolePunchFailed` otherwise; the termination of the
/// mediator follows the resolution at once.
pub proof fn law_udp_hole_punch_decision(m: MediatorView, outcome: Option<(UdpSocket, Token)>)
    requires
        m.state is HolePunching,
    ensures
        ({
            let punched = m.punched_udp(outcome);
            let info = punched.state->HolePunching_info;
            let step = m.udp_hole_punch_report(outcome);
            let released = m.release(Transport::Udp).len() as int;
            &&& !punched.childless() ==> step.next == punched && count(
                step.actions,
                ActionKind::HolePunchDone,
            ) == 0
            &&& punched.childless() ==> {
                &&& step.next.state is Terminated
                &&& count(step.actions, ActionKind::HolePunchDone) == 1
                &&& count(step.actions, ActionKind::RemoveState) == 1
                &&& step.actions[released] == ActionView::HolePunchDone(
                    if info.has_socket() {
                        Ok(info)
                    } else {
                        Err(NatError::HolePunchFailed)
                    },
                )
                &&& step.actions[released + 1] == ActionView::RemoveState(m.token)
            }
        }),
{
    lemma_udp_hole_punch_report_tallies(m, outcome);
}

/// The same of the TCP child's report.
pub proof fn law_tcp_hole_punch_decision(m: MediatorView, outcome: Option<(TcpStream, Token)>)
    requires
        m.state is HolePunching,
    ensures
        ({
            let punched = m.punched_tcp(outcome);
            let info = punched.state->HolePunching_info;
            let step = m.tcp_hole_punch_report(outcome);
            let released = m.release(Transport::Tcp).len() as int;
            &&& !punched.childless() ==> step.next == punched && count(
                step.actions,
                ActionKind::HolePunchDone,
            ) == 0
            &&& punched.childless() ==> {
                &&& step.next.state is Terminated
                &&& count(step.actions, ActionKind::HolePunchDone) == 1
                &&& count(step.actions, ActionKind::RemoveState) == 1
                &&& step.actions[released] == ActionView::HolePunchDone(
                    if info.has_socket() {
                        Ok(info)
                    } else {
                        Err(NatError::HolePunchFailed)
                    },
                )
                &&& step.actions[released + 1] == ActionView::RemoveState(m.token)
            }
        }),
{
    lemma_tcp_hole_punch_report_tallies(m, outcome);
}

/// When the hole-punch timer expires, the phase resolves with what was
/// gathered so far: a socket gathered is a success. The continuation is
/// invoked once, and the termination of the mediator follows at once.
pub proof fn law_hole_punch_timeout_resolves(m: MediatorView, udp: Option<Seq<SocketAddr>>, tcp: Option<Seq<SocketAddr>>)
    requires
        m.state is HolePunching,
    ensures
        ({
            let info = m.state->HolePunching_info;
            let step = m.timeout(TIMER_ID, udp, tcp);
            &&& step.next.state is Terminated
            &&& count(step.actions, ActionKind::HolePunchDone) == 1
            &&& count(step.actions, ActionKind::RemoveState) == 1
            &&& step.actions[0] == ActionView::HolePunchDone(
                if info.has_socket() {
                    Ok(info)
                } else {
                    Err(NatError::HolePunchFailed)
                },
            )
            &&& step.actions[1] == ActionView::RemoveState(m.token)
        }),
{
    lemma_timeout_tallies(m, TIMER_ID, udp, tcp);
}

/// A phase holds a timer exactly while the mediator waits, and the timer is
/// cancelled exactly when the phase that holds it is left. A timer armed
/// for a punch phase that cannot begin is cancelled at once.
pub proof fn law_timer_cancelled_on_leaving(m: MediatorView, event: Event)
    ensures
        m.state.timer() is Some <==> m.state is Rendezvous || m.state is HolePunching,
        !(event is PunchHole) ==> count(m.step(event).actions, ActionKind::CancelTimeout) == one(
            m.state.timer() is Some && m.step(event).next.state.timer() is None,
        ),
        count(m.step(event).actions, ActionKind::CancelTimeout) <= 1,
{
    lemma_step_tallies(m, event);
}

/// Over every history the token stays, the phases are passed in order, a
/// phase that stays keeps its timer, children that are gone stay gone once
/// the mediator has started, and a well-formed mediator stays well-formed.
pub proof fn law_history_in_order(m: MediatorView, events: Seq<Event>)
    ensures
        m.run(events).next.token == m.token,
        m.run(events).next.state.rank() >= m.state.rank(),
        m.run(events).next.state.rank() == m.state.rank() ==> m.run(events).next.state.timer()
            == m.state.timer(),
        !(m.state is Idle) ==> forall|transport: Transport|
            m.run(events).next.has_child(transport) ==> m.has_child(transport),
        m.wf() ==> m.run(events).next.wf(),
    decreases events.len(),
{
    if events.len() > 0 {
        law_history_in_order(m, events.drop_last());
        lemma_step_orderly(m.run(events.drop_last()).next, events.last());
    }
}

/// Once a mediator has started, it never asks for a rendezvous timer again
/// and refuses every further start: the rendezvous phase is timed once.
pub proof fn law_rendezvous_timed_once(
    m: MediatorView,
    events: Seq<Event>,
    timeout_sec: Option<u64>,
    timeout: Timeout,
    udp_started: bool,
    tcp_started: bool,
)
    requires
        !(m.state is Idle),
    ensures
        m.run(events).next.rendezvous_timer(timeout_sec) is Err,
        m.run(events).next.start(timeout, udp_started, tcp_started) == m.run(events).next.stay(),
        m.run(events).next.state is Rendezvous ==> m.state is Rendezvous && m.run(
            events,
        ).next.state.timer() == m.state.timer(),
{
    law_history_in_order(m, events);
}

/// Over every history the rendezvous continuation is invoked at most once,
/// and only on leaving the rendezvous phase; if nothing terminates the
/// mediator from outside, it is invoked exactly once on leaving it.
pub proof fn law_rendezvous_resolves_once(m: MediatorView, events: Seq<Event>)
    ensures
        count(m.run(events).actions, ActionKind::RendezvousDone) <= 1,
        count(m.run(events).actions, ActionKind::RendezvousDone) == 1 ==> m.state.rank() <= 1
            && m.run(events).next.state.rank() >= 2,
        m.state is Rendezvous && undisturbed(events) ==> count(
            m.run(events).actions,
            ActionKind::RendezvousDone,
        ) == one(!(m.run(events).next.state is Rendezvous)),
    decreases events.len(),
{
    if events.len() > 0 {
        let earlier = events.drop_last();
        let before = m.run(earlier);
        let last = before.next.step(events.last());
        law_rendezvous_resolves_once(m, earlier);
        law_history_in_order(m, earlier);
        lemma_step_orderly(before.next, events.last());
        lemma_step_tallies(before.next, events.last());
        lemma_count_add(before.actions, last.actions, ActionKind::RendezvousDone);
        if undisturbed(events) {
            assert forall|i: int| 0 <= i < earlier.len() implies !(#[trigger] earlier[i]).terminates() by {
                assert(earlier[i] == events[i]);
            }
            assert(!events[events.len() - 1].terminates());
        }
    }
}

/// Over every history the mediator is deregistered exactly once if the
/// history terminates it, and not at all if it does not.
pub proof fn law_deregistered_once(m: MediatorView, events: Seq<Event>)
    ensures
        count(m.run(events).actions, ActionKind::RemoveState) == one(
            !(m.state is Terminated) && m.run(events).next.state is Terminated,
        ),
    decreases events.len(),
{
    if events.len() > 0 {
        let earlier = events.drop_last();
        let before = m.run(earlier);
        let last = before.next.step(events.last());
        law_deregistered_once(m, earlier);
        law_history_in_order(m, earlier);
        lemma_step_orderly(before.next, events.last());
        lemma_step_tallies(before.next, events.last());
        lemma_count_add(before.actions, last.actions, ActionKind::RemoveState);
    }
}

/// Over every history each request to begin the punch phase is answered at
/// most once through the hole-punch continuation: at once where the phase
/// cannot begin, at the end of the phase where it can. If nothing
/// terminates the mediator from outside, every request is answered once
/// the phase is over.
pub proof fn law_hole_punch_resolves_once(m: MediatorView, events: Seq<Event>)
    ensures
        count(m.run(events).actions, ActionKind::HolePunchDone) + one(
            m.run(events).next.state is HolePunching,
        ) <= punch_requests(events) + one(m.state is HolePunching),
        undisturbed(events) ==> count(m.run(events).actions, ActionKind::HolePunchDone) + one(
            m.run(events).next.state is HolePunching,
        ) == punch_requests(events) + one(m.state is HolePunching),
    decreases events.len(),
{
    if events.len() > 0 {
        let earlier = events.drop_last();
        let before = m.run(earlier);
        let last = before.next.step(events.last());
        law_hole_punch_resolves_once(m, earlier);
        lemma_step_orderly(before.next, events.last());
        lemma_step_tallies(before.next, events.last());
        lemma_count_add(before.actions, last.actions, ActionKind::HolePunchDone);
        if undisturbed(events) {
            assert forall|i: int| 0 <= i < earlier.len() implies !(#[trigger] earlier[i]).terminates() by {
                assert(earlier[i] == events[i]);
            }
            assert(!events[events.len() - 1].terminates());
        }
    }
}

/// The answer to the request of an abandoned handle terminates the mediator
/// found under the token: it deregisters it once, invokes no continuation,
/// and a second answer finds nothing left to do.
pub proof fn law_abandoned_handle_terminates_once(m: MediatorView)
    ensures
        m.terminate().next.state is Terminated,
        count(m.terminate().actions, ActionKind::RemoveState) == one(!(m.state is Terminated)),
        count(m.terminate().actions, ActionKind::RendezvousDone) == 0,
        count(m.terminate().actions, ActionKind::HolePunchDone) == 0,
        m.terminate().next.terminate().next == m.terminate().next,
        m.terminate().next.terminate().actions == Seq::<ActionView>::empty(),
{
    law_terminate_releases_once(m);
}

/// The answer of a child that is not to be asked when a timer expires has
/// no bearing on what the expiry does.
pub proof fn law_timeout_ignores_unasked_children(
    m: MediatorView,
    timer_id: u8,
    udp: Option<Seq<SocketAddr>>,
    tcp: Option<Seq<SocketAddr>>,
    other: Option<Seq<SocketAddr>>,
)
    ensures
        !m.asks_on_timeout(timer_id, Transport::Udp) ==> m.timeout(timer_id, udp, tcp) == m.timeout(
            timer_id,
            other,
            tcp,
        ),
        !m.asks_on_timeout(timer_id, Transport::Tcp) ==> m.timeout(timer_id, udp, tcp) == m.timeout(
            timer_id,
            udp,
            other,
        ),
{
    if timer_id == TIMER_ID && m.state is Rendezvous {
        lemma_rendezvous_report_orderly(m, Transport::Udp, udp);
    }
}

} // verus!

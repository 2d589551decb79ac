//! The mediator's error type.

use vstd::prelude::*;

verus! {

/// Everything that can go wrong while traversing a NAT.
#[derive(Debug)]
pub enum NatError {
    /// An I/O error, as the reactor or a socket reported it.
    Io(std::io::Error),
    /// The timer subsystem refused a request.
    Timer(mio::timer::TimerError),
    /// A payload could not be encoded or decoded.
    Serialisation(bincode::Error),
    /// No transport obtained an external address.
    RendezvousFailed,
    /// The UDP transport obtained no external address.
    UdpRendezvousFailed,
    /// The mediator could not be registered with the reactor.
    HolePunchMediatorFailedToStart,
    /// The UDP transport's mediator could not be started.
    UdpHolePunchMediatorFailedToStart,
    /// The UDP rendezvous server could not be started.
    UdpRendezvousServerStartFailed,
    /// No transport produced a live socket.
    HolePunchFailed,
    /// The UDP transport produced no live socket.
    UdpHolePunchFailed,
    /// A timer fired with an identifier the state does not know.
    InvalidTimerId,
    /// The operation is not permitted in the current phase, or the
    /// addressed state is not what the caller expected.
    InvalidState,
    /// The socket is not registered.
    UnregisteredSocket,
    /// Anything else.
    Unknown,
}

impl From<std::io::Error> for NatError {
    fn from(e: std::io::Error) -> (r: NatError) {
        NatError::Io(e)
    }
}

impl vstd::std_specs::convert::FromSpecImpl<std::io::Error> for NatError {
    open spec fn obeys_from_spec() -> bool {
        true
    }

    open spec fn from_spec(e: std::io::Error) -> NatError {
        NatError::Io(e)
    }
}

impl From<mio::timer::TimerError> for NatError {
    fn from(e: mio::timer::TimerError) -> (r: NatError) {
        NatError::Timer(e)
    }
}

impl vstd::std_specs::convert::FromSpecImpl<mio::timer::TimerError> for NatError {
    open spec fn obeys_from_spec() -> bool {
        true
    }

    open spec fn from_spec(e: mio::timer::TimerError) -> NatError {
        NatError::Timer(e)
    }
}

impl From<bincode::Error> for NatError {
    fn from(e: bincode::Error) -> (r: NatError) {
        NatError::Serialisation(e)
    }
}

impl vstd::std_specs::convert::FromSpecImpl<bincode::Error> for NatError {
    open spec fn obeys_from_spec() -> bool {
        true
    }

    open spec fn from_spec(e: bincode::Error) -> NatError {
        NatError::Serialisation(e)
    }
}

} // verus!

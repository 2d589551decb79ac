//! Declarations of the reactor's and the standard library's types that the
//! mediator carries through without looking inside them.

use vstd::prelude::*;

verus! {

/// `mio::Token`: the reactor-assigned identifier of a registered state.
/// Opaque here; the mediator stores it and hands it back.
#[verifier::external_type_specification]
#[verifier::external_body]
pub struct ExToken(mio::Token);

/// `mio::timer::Timeout`: the handle of an armed timer, needed to cancel it.
#[verifier::external_type_specification]
#[verifier::external_body]
pub struct ExTimeout(mio::timer::Timeout);

/// `mio::timer::TimerError`: the timer subsystem's error.
#[verifier::external_type_specification]
#[verifier::external_body]
pub struct ExTimerError(mio::timer::TimerError);

/// `mio::udp::UdpSocket`: a live UDP socket produced by a hole punch.
#[verifier::external_type_specification]
#[verifier::external_body]
pub struct ExUdpSocket(mio::udp::UdpSocket);

/// `mio::tcp::TcpStream`: a live TCP stream produced by a hole punch.
#[verifier::external_type_specification]
#[verifier::external_body]
pub struct ExTcpStream(mio::tcp::TcpStream);

/// `std::io::Error`: an I/O error surfaced by the reactor or a socket.
#[verifier::external_type_specification]
#[verifier::external_body]
pub struct ExIoError(std::io::Error);

/// `bincode::ErrorKind`: the payload of a `bincode::Error`.
#[verifier::external_type_specification]
#[verifier::external_body]
pub struct ExBincodeErrorKind(bincode::ErrorKind);

} // verus!

pub mod config;

use vstd::prelude::*;

use crate::step::Step;

verus! {

/// Something that a listener waits for: whichever comes first drives the
/// listener one step.
#[derive(Debug)]
pub enum ListenerEvent<C, E> {
    /// A TCP connection was accepted; its handshake now runs on its own.
    Accepted,
    /// Accepting a TCP connection failed with this error.
    AcceptFailed(E),
    /// A client completed its handshake and is ready.
    ClientReady(C),
    /// The channel of ready clients has closed.
    ClientsExhausted,
}

/// The result of a listener's step on `event`.
pub open spec fn listener_result<C, E>(event: ListenerEvent<C, E>) -> Result<Step<C>, E> {
    match event {
        ListenerEvent::Accepted => Ok(Step::Continue),
        ListenerEvent::AcceptFailed(e) => Err(e),
        ListenerEvent::ClientReady(client) => Ok(Step::Item(client)),
        ListenerEvent::ClientsExhausted => Ok(Step::Break),
    }
}

/// Drives a listener one step: an accepted connection lets the listener
/// keep going while its handshake runs; a failure to accept stops the
/// listener with that error; a ready client is delivered; when no more
/// clients can arrive, the listener completes.
pub fn run<C, E>(event: ListenerEvent<C, E>) -> (r: Result<Step<C>, E>)
    ensures
        r == listener_result(event),
{
    match event {
        ListenerEvent::Accepted => Ok(Step::Continue),
        ListenerEvent::AcceptFailed(e) => Err(e),
        ListenerEvent::ClientReady(client) => Ok(Step::Item(client)),
        ListenerEvent::ClientsExhausted => Ok(Step::Break),
    }
}

} // verus!

verus! {

/// An accepted connection lets the listener go on; a failure to accept stops
/// it with that very error; a ready client is delivered as it came; when no
/// more clients can arrive, the listener completes.
pub proof fn lemma_listener_step_outcomes<C, E>(client: C, error: E)
    ensures
        listener_result::<C, E>(ListenerEvent::Accepted) == Ok::<Step<C>, E>(Step::Continue),
        listener_result::<C, E>(ListenerEvent::AcceptFailed(error)) == Err::<Step<C>, E>(error),
        listener_result::<C, E>(ListenerEvent::ClientReady(client)) == Ok::<Step<C>, E>(Step::Item(client)),
        listener_result::<C, E>(ListenerEvent::ClientsExhausted) == Ok::<Step<C>, E>(Step::Break),
{
}

} // verus!

use vstd::prelude::*;

verus! {

/// A message to the coordinator: an error from the listener, or a request to
/// quit.
pub enum AppMessage {
    HotkeyError(String),
    Quit,
}

/// What one non-blocking receive on the coordinator's channel gave.
pub enum ChannelPoll {
    Received(AppMessage),
    Empty,
    Disconnected,
}

/// What the coordinator does after one receive.
pub enum CoordinatorStep {
    /// Nothing arrived: poll again.
    Continue,
    /// An error arrived: log it and poll again.
    ReportError(String),
    /// A quit request, or the channel is gone: run the shutdown handshake.
    Shutdown,
}

/// The coordinator's decision on one receive: errors are reported and the
/// loop goes on; a quit request or a disconnected channel ends it.
pub fn coordinator_step(poll: ChannelPoll) -> (r: CoordinatorStep)
    ensures
        poll matches ChannelPoll::Received(AppMessage::HotkeyError(m)) ==> (r matches CoordinatorStep::ReportError(
            n,
        ) && n == m),
        poll matches ChannelPoll::Received(AppMessage::Quit) ==> r is Shutdown,
        poll is Disconnected ==> r is Shutdown,
        poll is Empty ==> r is Continue,
{
    match poll {
        ChannelPoll::Received(AppMessage::HotkeyError(m)) => CoordinatorStep::ReportError(m),
        ChannelPoll::Received(AppMessage::Quit) => CoordinatorStep::Shutdown,
        ChannelPoll::Empty => CoordinatorStep::Continue,
        ChannelPoll::Disconnected => CoordinatorStep::Shutdown,
    }
}

} // verus!

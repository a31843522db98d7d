use vstd::prelude::*;

verus! {

/// What one wait on the sample channel gave.
#[derive(Debug, Clone, Copy, PartialEq, Eq, Structural)]
pub enum RecvOutcome {
    /// A sample arrived.
    Message,
    /// No sample arrived within the wait.
    Timeout,
    /// The sampling thread has gone.
    Disconnected,
}

/// What the JSON front end does next.
#[derive(Debug, Clone, Copy, PartialEq, Eq, Structural)]
pub enum JsonAction {
    /// Print the sample as pretty JSON, then wait again.
    Print,
    /// Wait again.
    Wait,
    /// Stop and return.
    Stop,
}

/// The JSON front end prints every sample, keeps waiting through timeouts,
/// and stops once the sampling thread has gone.
pub fn json_step(o: RecvOutcome) -> (a: JsonAction)
    ensures
        a == match o {
            RecvOutcome::Message => JsonAction::Print,
            RecvOutcome::Timeout => JsonAction::Wait,
            RecvOutcome::Disconnected => JsonAction::Stop,
        },
{
    match o {
        RecvOutcome::Message => JsonAction::Print,
        RecvOutcome::Timeout => JsonAction::Wait,
        RecvOutcome::Disconnected => JsonAction::Stop,
    }
}

} // verus!

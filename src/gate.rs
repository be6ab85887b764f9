use vstd::prelude::*;

verus! {

/// One-shot rendezvous of a start cycle: armed by `start`, then resolved once,
/// by whichever of "endpoint created" and "fatal error" comes first.
#[derive(Clone, Copy, Debug, PartialEq, Eq, Structural)]
pub enum GateState {
    /// No start has been requested.
    Idle,
    /// Armed; waiting for the engine.
    Pending,
    /// The engine created the ingestion endpoint.
    Opened,
    /// The engine failed, or the session was stopped, before that.
    Failed,
}

/// Gate after a resolution attempt: only a pending gate changes.
pub open spec fn resolved(g: GateState, success: bool) -> GateState {
    if g == GateState::Pending {
        if success {
            GateState::Opened
        } else {
            GateState::Failed
        }
    } else {
        g
    }
}

impl GateState {
    /// Resolves a pending gate; later or duplicate resolutions are inert.
    /// Returns whether this call resolved it.
    pub fn resolve(&mut self, success: bool) -> (fired: bool)
        ensures
            fired == (*old(self) == GateState::Pending),
            *final(self) == resolved(*old(self), success),
    {
        if *self == GateState::Pending {
            *self = if success {
                GateState::Opened
            } else {
                GateState::Failed
            };
            true
        } else {
            false
        }
    }

    /// The start outcome: `None` while unresolved, else whether it succeeded.
    pub fn outcome(&self) -> (r: Option<bool>)
        ensures
            r == (match *self {
                GateState::Opened => Some(true),
                GateState::Failed => Some(false),
                _ => None::<bool>,
            }),
    {
        match self {
            GateState::Opened => Some(true),
            GateState::Failed => Some(false),
            _ => None,
        }
    }
}

} // verus!

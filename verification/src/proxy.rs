//! A connection that is proxied through a tunnel.
use vstd::prelude::*;

verus! {

/// Where a proxied connection stands.
#[derive(Debug, Clone, Copy, PartialEq, Eq, Structural)]
pub enum ProxyStage {
    /// What was read from the tunnel ahead of time is written to the other end.
    Flushing,
    /// Bytes are copied in both directions.
    Copying,
}

/// What comes of a stage of a proxied connection.
#[derive(Debug, Clone, Copy, PartialEq, Eq, Structural)]
pub enum ProxyStep {
    Continue(ProxyStage),
    /// Both directions have ended.
    Closed,
    /// The connection broke in this stage.
    Broken(ProxyStage),
}

/// Moves a proxied connection on: after the bytes read ahead of time are through, both directions
/// are copied, until they end.
pub fn proxy(stage: ProxyStage, ok: bool) -> (step: ProxyStep)
    ensures
        step == proxy_next(stage, ok),
{
    if !ok {
        return ProxyStep::Broken(stage);
    }
    match stage {
        ProxyStage::Flushing => ProxyStep::Continue(ProxyStage::Copying),
        ProxyStage::Copying => ProxyStep::Closed,
    }
}

/// What comes of a stage of a proxied connection that went well, or did not.
pub open spec fn proxy_next(stage: ProxyStage, ok: bool) -> ProxyStep {
    match (stage, ok) {
        (_, false) => ProxyStep::Broken(stage),
        (ProxyStage::Flushing, true) => ProxyStep::Continue(ProxyStage::Copying),
        (ProxyStage::Copying, true) => ProxyStep::Closed,
    }
}

} // verus!

//! The interface a metric sink implements to consume decoded telemetry.

use vstd::prelude::*;
use crate::telemetry::HMSStateResponse;

verus! {

/// Delivery guarantee a sink may ask its transport for when republishing.
#[derive(Clone, Copy, Debug, PartialEq, Eq, Structural)]
pub enum QoS {
    AtMostOnce,
    AtLeastOnce,
    ExactlyOnce,
}

/// A sink adapter: turns one decoded telemetry record into
/// protocol-specific publish actions. Implementations live with their
/// transports, outside the core.
pub trait MetricPublisher {
    fn publish(&mut self, hms_state: &HMSStateResponse);
}

} // verus!

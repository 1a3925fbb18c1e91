//! What has an input port that buffers arrive at.

use vstd::prelude::*;
use crate::mmal::PortRef;

verus! {

/// A component with an input port for the recording.
pub trait VideoInputPort {
    /// The port.
    spec fn input_port_spec(&self) -> PortRef;

    /// The port.
    fn raw_input_port(&self) -> (port: PortRef)
        ensures
            port == self.input_port_spec(),
    ;
}

} // verus!

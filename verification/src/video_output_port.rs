//! What has an output port that buffers leave by.

use vstd::prelude::*;
use crate::mmal::{PortRef, Step};

verus! {

/// A component with an output port for the recording.
pub trait VideoOutputPort {
    /// The port.
    spec fn output_port_spec(&self) -> PortRef;

    /// Starts to disable the port. Where it is not enabled, the operation is
    /// over at once.
    fn disable_output_port(&mut self) -> (step: Step<()>)
        ensures
            final(self).output_port_spec() == old(self).output_port_spec(),
            !step.is_err(),
    ;

    /// The port.
    fn raw_output_port(&self) -> (port: PortRef)
        ensures
            port == self.output_port_spec(),
    ;
}

} // verus!

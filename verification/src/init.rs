//! Bringing up the host interface.

use vstd::prelude::*;
use crate::mmal::Request;

verus! {

/// Whether the host interface of this process has been brought up.
#[derive(Debug)]
pub struct Platform {
    started: bool,
}

impl View for Platform {
    type V = bool;

    closed spec fn view(&self) -> bool {
        self.started
    }
}

impl Platform {
    /// The platform of a process that has not brought up anything.
    pub fn new() -> (platform: Platform)
        ensures
            !platform@,
    {
        Platform { started: false }
    }

    /// Whether the host interface has been brought up.
    pub fn started(&self) -> (started: bool)
        ensures
            started == self@,
    {
        self.started
    }
}

/// Brings up the host interface, once: the first call hands out the request
/// to do so, every later call nothing. A process calls this before it makes
/// its first component.
pub fn init(platform: &mut Platform) -> (call: Option<Request>)
    ensures
        final(platform)@,
        call == if old(platform)@ {
            None
        } else {
            Some(Request::InitPlatform)
        },
{
    if platform.started {
        None
    } else {
        platform.started = true;
        Some(Request::InitPlatform)
    }
}

} // verus!

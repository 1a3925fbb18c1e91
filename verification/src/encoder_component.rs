//! The encoder: the component that compresses the frames, and the pool of
//! buffers that its output port works with.

use vstd::prelude::*;
use crate::mmal::{
    ComponentKind, ComponentState, Handles, Outcome, Port, PortRef, Reply, Request, Step,
    VideoFormat, MMAL_EINVAL, MMAL_ENCODING_H264, MMAL_SUCCESS,
};
use crate::video_error::VideoErrorKind;
use crate::video_input_port::VideoInputPort;
use crate::video_output_port::VideoOutputPort;
use crate::video_param::VideoParam;
use crate::video_pool::{
    lemma_pool_fresh, lemma_pool_restored, lemma_pool_taken, BufferPool, PoolView, VideoPool,
};

verus! {

/// The fewest buffers the encoder's output port is given.
pub const MIN_ENCODER_BUFFERS: u32 = 3;

/// The larger of two numbers.
pub open spec fn larger_spec(a: u32, b: u32) -> u32 {
    if a >= b {
        a
    } else {
        b
    }
}

/// The larger of two numbers.
#[verifier::when_used_as_spec(larger_spec)]
pub fn larger(a: u32, b: u32) -> (max: u32)
    ensures
        max == larger_spec(a, b),
{
    if a >= b {
        a
    } else {
        b
    }
}

/// What the encoder's output port is set to before its format is committed:
/// the format of the input port, but encoded as H.264 at the requested bit
/// rate; buffers of the recommended size or the minimum, whichever is larger;
/// as many of them as recommended or as the minimum, whichever is larger, and
/// at least three. The rest of the port stays as it is.
pub open spec fn encoder_port_settings_spec(param: VideoParam, input: Port, output: Port) -> Port {
    Port {
        format: VideoFormat {
            encoding: MMAL_ENCODING_H264,
            bitrate: param.bit_rate,
            ..input.format
        },
        buffer_size: larger_spec(output.buffer_size_recommended, output.buffer_size_min),
        buffer_num: larger_spec(
            larger_spec(output.buffer_num_recommended, output.buffer_num_min),
            MIN_ENCODER_BUFFERS,
        ),
        ..output
    }
}

/// Everything about an encoder that changes over its life, but for the pool.
#[derive(Clone, Copy, Debug)]
pub struct EncoderStatus {
    /// Where the component stands.
    pub state: ComponentState,
    /// The call that is being made, if one is.
    pub awaiting: Option<Request>,
    /// Why the initialisation is being undone, while it is.
    pub failure: Option<(VideoErrorKind, u32)>,
    /// Whether a new component is to be created once the old one is gone.
    pub restart: bool,
    /// The first input port, as last read.
    pub input: Port,
    /// The first output port, as last read or committed.
    pub output: Port,
    /// How many free buffers the refill under way has still to send.
    pub remaining: usize,
}

/// An encoder as a value.
pub struct EncoderView {
    pub status: EncoderStatus,
    pub pool: Option<PoolView>,
}

/// The encoder's input port.
pub open spec fn encoder_input_spec() -> PortRef {
    PortRef::input_spec(ComponentKind::Encoder, 0)
}

/// The encoder's output port.
pub open spec fn encoder_output_spec() -> PortRef {
    PortRef::output_spec(ComponentKind::Encoder, 0)
}

impl EncoderView {
    /// An encoder that has not been created.
    pub open spec fn new_spec() -> EncoderView {
        let port = Port {
            format: VideoFormat {
                encoding: 0,
                encoding_variant: 0,
                bitrate: 0,
                width: 0,
                height: 0,
                crop_x: 0,
                crop_y: 0,
                crop_width: 0,
                crop_height: 0,
                frame_rate_num: 0,
                frame_rate_den: 0,
            },
            buffer_num: 0,
            buffer_size: 0,
            buffer_num_min: 0,
            buffer_num_recommended: 0,
            buffer_size_min: 0,
            buffer_size_recommended: 0,
            is_enabled: false,
        };
        EncoderView {
            status: EncoderStatus {
                state: ComponentState::Uninitialized,
                awaiting: None,
                failure: None,
                restart: false,
                input: port,
                output: port,
                remaining: 0,
            },
            pool: None,
        }
    }

    /// The same encoder with this call in flight, or with none.
    pub open spec fn with_awaiting(self, awaiting: Option<Request>) -> EncoderView {
        EncoderView { status: EncoderStatus { awaiting, ..self.status }, ..self }
    }

    /// The same encoder in this state.
    pub open spec fn with_state(self, state: ComponentState) -> EncoderView {
        EncoderView { status: EncoderStatus { state, ..self.status }, ..self }
    }

    /// Whether the call succeeded, as far as the encoder cares: a creation
    /// must bring a component with an input and an output port, a teardown
    /// call cannot fail, every other call must report success.
    pub open spec fn call_succeeded(call: Request, reply: Reply) -> bool {
        match call {
            Request::CreateComponent(_) => reply.succeeded_spec() && reply.has_component_spec()
                && reply.input_spec().len() >= 1 && reply.output_spec().len() >= 1,
            Request::DestroyPool(_) => true,
            Request::DestroyComponent(_) => true,
            Request::DisableComponent(_) => true,
            Request::DisablePort(_) => true,
            _ => reply.succeeded_spec(),
        }
    }

    /// The kind of error that the failure of this call stands for.
    pub open spec fn failure_kind(call: Request) -> VideoErrorKind {
        match call {
            Request::CreateComponent(_) => VideoErrorKind::ComponentCreate,
            Request::CommitFormat { .. } => VideoErrorKind::FormatCommit,
            Request::CreatePool { .. } => VideoErrorKind::PoolCreate,
            Request::SendBuffer { .. } => VideoErrorKind::BufferSubmit,
            _ => VideoErrorKind::ComponentEnable,
        }
    }

    /// The encoder once the call has been made: what the call did to the
    /// component, its ports and its pool. Nothing is in flight. A buffer
    /// that the port did not accept is back in the pool, first in line.
    pub open spec fn absorbed(self, call: Request, reply: Reply) -> EncoderView {
        let rest = self.with_awaiting(None);
        match call {
            Request::CreateComponent(_) => if EncoderView::call_succeeded(call, reply) {
                EncoderView {
                    status: EncoderStatus {
                        state: ComponentState::Created,
                        input: reply.input_spec()[0],
                        output: reply.output_spec()[0],
                        ..rest.status
                    },
                    ..rest
                }
            } else if reply.has_component_spec() {
                rest.with_state(ComponentState::Created)
            } else {
                rest
            },
            Request::CommitFormat { settings, .. } => if reply.succeeded_spec() {
                EncoderView {
                    status: EncoderStatus {
                        state: ComponentState::Configured,
                        output: settings,
                        ..rest.status
                    },
                    ..rest
                }
            } else {
                rest
            },
            Request::EnableComponent(_) => if reply.succeeded_spec() {
                rest.with_state(ComponentState::Enabled)
            } else {
                rest
            },
            Request::CreatePool { buffer_num, buffer_size, .. } => if reply.succeeded_spec() {
                EncoderView { pool: Some(PoolView::fresh(buffer_num, buffer_size)), ..rest }
            } else {
                rest
            },
            Request::SendBuffer { buffer, .. } => if reply.succeeded_spec() {
                rest
            } else {
                EncoderView {
                    status: EncoderStatus { remaining: 0, ..rest.status },
                    pool: match self.pool {
                        Some(pool) => Some(
                            if pool.in_flight(buffer) {
                                pool.restored(buffer)
                            } else {
                                pool
                            },
                        ),
                        None => None,
                    },
                }
            },
            Request::DisableComponent(_) => rest.with_state(ComponentState::Disabled),
            Request::DisablePort(_) => EncoderView {
                status: EncoderStatus {
                    output: Port { is_enabled: false, ..self.status.output },
                    ..rest.status
                },
                ..rest
            },
            Request::DestroyPool(_) => EncoderView { pool: None, ..rest },
            Request::DestroyComponent(_) => rest.with_state(
                if self.status.failure is Some || self.status.restart {
                    ComponentState::Uninitialized
                } else {
                    ComponentState::Destroyed
                },
            ),
            _ => rest,
        }
    }

    /// The call that follows `call` while the encoder is initialised: create,
    /// commit the format of the output port, enable, create the pool with the
    /// buffer numbers of the output port. `None` where `call` ends an
    /// operation.
    pub open spec fn following(self, param: VideoParam, call: Request) -> Option<Request> {
        match call {
            Request::CreateComponent(_) => Some(
                Request::CommitFormat {
                    port: encoder_output_spec(),
                    template: Some(encoder_input_spec()),
                    settings: encoder_port_settings_spec(
                        param,
                        self.status.input,
                        self.status.output,
                    ),
                },
            ),
            Request::CommitFormat { .. } => Some(Request::EnableComponent(ComponentKind::Encoder)),
            Request::EnableComponent(_) => Some(
                Request::CreatePool {
                    port: encoder_output_spec(),
                    buffer_num: self.status.output.buffer_num,
                    buffer_size: self.status.output.buffer_size,
                },
            ),
            _ => None,
        }
    }

    /// Starts an operation with `call`, unless a call is in flight already:
    /// then nothing changes, and that call is handed out again.
    pub open spec fn started(self, call: Request) -> (EncoderView, Outcome) {
        match self.status.awaiting {
            Some(pending) => (self, Outcome::Call(pending)),
            None => (self.with_awaiting(Some(call)), Outcome::Call(call)),
        }
    }

    /// Goes on taking the encoder down: first the pool, then the component.
    /// When nothing is left, the error that caused the teardown is reported,
    /// or the creation that waited for it begins, or the operation is over.
    pub open spec fn torn_down(self) -> (EncoderView, Outcome) {
        if self.pool is Some {
            self.started(Request::DestroyPool(encoder_output_spec()))
        } else if self.status.state.holds_handle_spec() {
            self.started(Request::DestroyComponent(ComponentKind::Encoder))
        } else {
            let rest = EncoderView {
                status: EncoderStatus { failure: None, restart: false, ..self.status },
                ..self
            };
            match self.status.failure {
                Some((kind, status)) => (rest, Outcome::Failed(kind, status)),
                None => if self.status.restart {
                    rest.started(Request::CreateComponent(ComponentKind::Encoder))
                } else {
                    (rest, Outcome::Finished)
                },
            }
        }
    }

    /// Gives up the initialisation: what exists is taken down, then the
    /// error is reported.
    pub open spec fn rolled_back(self, kind: VideoErrorKind, status: u32) -> (EncoderView, Outcome) {
        EncoderView {
            status: EncoderStatus { failure: Some((kind, status)), ..self.status },
            ..self
        }.torn_down()
    }

    /// Goes on with the refill: the oldest free buffer is sent, until as many
    /// were sent as were free when the refill began.
    pub open spec fn refilled(self) -> (EncoderView, Outcome) {
        if self.status.remaining == 0 {
            (self, Outcome::Finished)
        } else {
            match self.pool {
                Some(pool) if pool.free.len() > 0 => EncoderView {
                    status: EncoderStatus {
                        remaining: (self.status.remaining - 1) as usize,
                        ..self.status
                    },
                    pool: Some(pool.taken()),
                }.started(Request::SendBuffer { port: encoder_output_spec(), buffer: pool.free[0] }),
                _ => (
                    EncoderView {
                        status: EncoderStatus { remaining: 0, ..self.status },
                        ..self
                    },
                    Outcome::Failed(VideoErrorKind::PoolExhausted, MMAL_EINVAL),
                ),
            }
        }
    }

    /// Starts the initialisation. What exists is taken down first.
    pub open spec fn init_spec(self) -> (EncoderView, Outcome) {
        if self.status.awaiting is Some {
            self.started(Request::CreateComponent(ComponentKind::Encoder))
        } else {
            EncoderView { status: EncoderStatus { restart: true, ..self.status }, ..self }.torn_down()
        }
    }

    /// Starts to disable the component. Nothing is to do unless it is enabled.
    pub open spec fn disable_spec(self) -> (EncoderView, Outcome) {
        if self.status.awaiting is None && !(self.status.state is Enabled) {
            (self, Outcome::Finished)
        } else {
            self.started(Request::DisableComponent(ComponentKind::Encoder))
        }
    }

    /// Starts to destroy the pool and the component. Nothing is to do where
    /// neither exists.
    pub open spec fn destroy_spec(self) -> (EncoderView, Outcome) {
        if self.status.awaiting is Some {
            self.started(Request::DestroyComponent(ComponentKind::Encoder))
        } else {
            self.torn_down()
        }
    }

    /// Starts to send every free buffer of the pool to the output port.
    /// Without a pool there is no buffer to send.
    pub open spec fn send_queue_buffers_spec(self) -> (EncoderView, Outcome) {
        if self.status.awaiting is Some {
            self.started(Request::DestroyComponent(ComponentKind::Encoder))
        } else {
            match self.pool {
                Some(pool) => EncoderView {
                    status: EncoderStatus { remaining: pool.free.len() as usize, ..self.status },
                    ..self
                }.refilled(),
                None => (self, Outcome::Failed(VideoErrorKind::PoolExhausted, MMAL_EINVAL)),
            }
        }
    }

    /// Starts to disable the output port. Nothing is to do unless a component
    /// exists and the port is enabled.
    pub open spec fn disable_output_port_spec(self) -> (EncoderView, Outcome) {
        if self.status.awaiting is None && !(self.status.state.holds_handle_spec()
            && self.status.output.is_enabled) {
            (self, Outcome::Finished)
        } else {
            self.started(Request::DisablePort(encoder_output_spec()))
        }
    }

    /// Takes the reply to the call in flight.
    ///
    /// The call takes its effect. After a destruction the teardown goes on.
    /// A buffer that the port refused ends the refill with an error; any
    /// other call that failed has the initialisation rolled back. After a
    /// buffer that the port accepted the refill goes on; after any other call
    /// the next call of the initialisation follows, or the operation is over.
    pub open spec fn resume_spec(self, param: VideoParam, reply: Reply) -> (EncoderView, Outcome) {
        match self.status.awaiting {
            None => (self, Outcome::Finished),
            Some(call) => {
                let next = self.absorbed(call, reply);
                if call is DestroyPool || call is DestroyComponent {
                    next.torn_down()
                } else if !EncoderView::call_succeeded(call, reply) {
                    if call is SendBuffer {
                        (next, Outcome::Failed(VideoErrorKind::BufferSubmit, reply.status_spec()))
                    } else {
                        next.rolled_back(EncoderView::failure_kind(call), reply.status_spec())
                    }
                } else if call is SendBuffer {
                    next.refilled()
                } else {
                    match next.following(param, call) {
                        Some(request) => next.started(request),
                        None => (next, Outcome::Finished),
                    }
                }
            },
        }
    }
}

/// The encoder of a recording session.
pub struct EncoderComponent {
    param: VideoParam,
    status: EncoderStatus,
    pool: Option<BufferPool>,
}

impl View for EncoderComponent {
    type V = EncoderView;

    closed spec fn view(&self) -> EncoderView {
        EncoderView {
            status: self.status,
            pool: match self.pool {
                Some(pool) => Some(pool@),
                None => None,
            },
        }
    }
}

impl EncoderComponent {
    /// The parameters that the encoder was made with.
    pub closed spec fn param_spec(&self) -> VideoParam {
        self.param
    }

    /// An encoder for these parameters. Nothing exists on the hardware yet.
    pub fn new(param: VideoParam) -> (encoder: EncoderComponent)
        ensures
            encoder@ == EncoderView::new_spec(),
            encoder.param_spec() == param,
    {
        let port = Port {
            format: VideoFormat {
                encoding: 0,
                encoding_variant: 0,
                bitrate: 0,
                width: 0,
                height: 0,
                crop_x: 0,
                crop_y: 0,
                crop_width: 0,
                crop_height: 0,
                frame_rate_num: 0,
                frame_rate_den: 0,
            },
            buffer_num: 0,
            buffer_size: 0,
            buffer_num_min: 0,
            buffer_num_recommended: 0,
            buffer_size_min: 0,
            buffer_size_recommended: 0,
            is_enabled: false,
        };
        EncoderComponent {
            param,
            status: EncoderStatus {
                state: ComponentState::Uninitialized,
                awaiting: None,
                failure: None,
                restart: false,
                input: port,
                output: port,
                remaining: 0,
            },
            pool: None,
        }
    }

    /// Where the component stands.
    pub fn state(&self) -> (state: ComponentState)
        ensures
            state == self@.status.state,
    {
        self.status.state
    }

    /// The call that is being made, if one is.
    pub fn awaiting(&self) -> (call: Option<Request>)
        ensures
            call == self@.status.awaiting,
    {
        self.status.awaiting
    }

    /// The output port, as last read or committed.
    pub fn output(&self) -> (port: Port)
        ensures
            port == self@.status.output,
    {
        self.status.output
    }

    /// Whether a component exists on the hardware.
    pub fn validate_component(&self) -> (exists: bool)
        ensures
            exists == self@.status.state.holds_handle_spec(),
    {
        self.status.state.holds_handle()
    }

    /// Whether a pool exists.
    pub fn validate_pool(&self) -> (exists: bool)
        ensures
            exists == self@.pool is Some,
    {
        self.pool.is_some()
    }

    /// What the output port is set to before its format is committed.
    pub fn set_ouput_port_format(&self, input: Port, output: Port) -> (settings: Port)
        ensures
            settings == encoder_port_settings_spec(self.param_spec(), input, output),
    {
        Port {
            format: VideoFormat {
                encoding: MMAL_ENCODING_H264,
                bitrate: self.param.bit_rate,
                ..input.format
            },
            buffer_size: larger(output.buffer_size_recommended, output.buffer_size_min),
            buffer_num: larger(
                larger(output.buffer_num_recommended, output.buffer_num_min),
                MIN_ENCODER_BUFFERS,
            ),
            ..output
        }
    }

    /// The call after `call` in the order in which the encoder is brought up.
    fn set_all_port_formats(&self, call: Request) -> (next: Option<Request>)
        ensures
            next == self@.following(self.param_spec(), call),
    {
        match call {
            Request::CreateComponent(_) => Some(
                Request::CommitFormat {
                    port: PortRef::output(ComponentKind::Encoder, 0),
                    template: Some(PortRef::input(ComponentKind::Encoder, 0)),
                    settings: self.set_ouput_port_format(self.status.input, self.status.output),
                },
            ),
            Request::CommitFormat { .. } => Some(Request::EnableComponent(ComponentKind::Encoder)),
            Request::EnableComponent(_) => Some(
                Request::CreatePool {
                    port: PortRef::output(ComponentKind::Encoder, 0),
                    buffer_num: self.status.output.buffer_num,
                    buffer_size: self.status.output.buffer_size,
                },
            ),
            _ => None,
        }
    }

    /// Whether the call succeeded, as far as the encoder cares.
    fn call_succeeded(call: Request, reply: &Reply) -> (ok: bool)
        ensures
            ok == EncoderView::call_succeeded(call, *reply),
    {
        match call {
            Request::CreateComponent(_) => match reply {
                Reply::Component { status, ports: Some(ports) } => *status == MMAL_SUCCESS
                    && ports.input.len() >= 1 && ports.output.len() >= 1,
                _ => false,
            },
            Request::DestroyPool(_) => true,
            Request::DestroyComponent(_) => true,
            Request::DisableComponent(_) => true,
            Request::DisablePort(_) => true,
            _ => reply.succeeded(),
        }
    }

    /// The kind of error that the failure of this call stands for.
    fn failure_kind(call: Request) -> (kind: VideoErrorKind)
        ensures
            kind == EncoderView::failure_kind(call),
    {
        match call {
            Request::CreateComponent(_) => VideoErrorKind::ComponentCreate,
            Request::CommitFormat { .. } => VideoErrorKind::FormatCommit,
            Request::CreatePool { .. } => VideoErrorKind::PoolCreate,
            Request::SendBuffer { .. } => VideoErrorKind::BufferSubmit,
            _ => VideoErrorKind::ComponentEnable,
        }
    }

    /// Takes in what `mmal_component_create` returned: the component, if one
    /// came, and its first input and output port, if it has them.
    fn create_component(&mut self, reply: &Reply)
        ensures
            final(self)@ == old(self)@.absorbed(
                Request::CreateComponent(ComponentKind::Encoder),
                *reply,
            ),
            final(self).param_spec() == old(self).param_spec(),
    {
        self.status.awaiting = None;
        match reply {
            Reply::Component { status, ports: Some(ports) } => {
                self.status.state = ComponentState::Created;
                if *status == MMAL_SUCCESS && ports.input.len() >= 1 && ports.output.len() >= 1 {
                    self.status.input = ports.input[0];
                    self.status.output = ports.output[0];
                }
            },
            _ => {},
        }
    }

    /// Takes in what `mmal_port_pool_create` returned: the pool, if one came.
    fn create_pool(&mut self, buffer_num: u32, buffer_size: u32, reply: &Reply)
        ensures
            final(self)@ == old(self)@.absorbed(
                Request::CreatePool { port: encoder_output_spec(), buffer_num, buffer_size },
                *reply,
            ),
            final(self).param_spec() == old(self).param_spec(),
    {
        self.status.awaiting = None;
        if reply.succeeded() {
            self.pool = Some(BufferPool::new(buffer_num, buffer_size));
        }
    }

    /// Takes in that the pool has been destroyed.
    fn destroy_pool(&mut self)
        ensures
            final(self)@ == old(self)@.absorbed(
                Request::DestroyPool(encoder_output_spec()),
                Reply::Status(0),
            ),
            final(self).param_spec() == old(self).param_spec(),
    {
        self.status.awaiting = None;
        self.pool = None;
    }

    /// Takes in that the component has been destroyed.
    fn destroy_component(&mut self)
        ensures
            final(self)@ == old(self)@.absorbed(
                Request::DestroyComponent(ComponentKind::Encoder),
                Reply::Status(0),
            ),
            final(self).param_spec() == old(self).param_spec(),
    {
        self.status.awaiting = None;
        self.status.state = if self.status.failure.is_some() || self.status.restart {
            ComponentState::Uninitialized
        } else {
            ComponentState::Destroyed
        };
    }

    /// Takes in whether the port accepted the buffer: one that it refused
    /// goes back to the pool, and the refill is over.
    fn send_buffer(&mut self, buffer: u32, reply: &Reply)
        ensures
            final(self)@ == old(self)@.absorbed(
                Request::SendBuffer { port: encoder_output_spec(), buffer },
                *reply,
            ),
            final(self).param_spec() == old(self).param_spec(),
    {
        self.status.awaiting = None;
        if !reply.succeeded() {
            self.status.remaining = 0;
            match self.pool.take() {
                Some(mut pool) => {
                    let _ = pool.restore(buffer);
                    self.pool = Some(pool);
                },
                None => {},
            }
        }
    }

    /// Takes in the effect of the call that was made.
    fn absorb(&mut self, call: Request, reply: &Reply)
        ensures
            final(self)@ == old(self)@.absorbed(call, *reply),
            final(self).param_spec() == old(self).param_spec(),
    {
        match call {
            Request::CreateComponent(_) => self.create_component(reply),
            Request::CreatePool { buffer_num, buffer_size, .. } => self.create_pool(
                buffer_num,
                buffer_size,
                reply,
            ),
            Request::SendBuffer { buffer, .. } => self.send_buffer(buffer, reply),
            Request::DestroyPool(_) => self.destroy_pool(),
            Request::DestroyComponent(_) => self.destroy_component(),
            _ => {
                self.status.awaiting = None;
                let ok = reply.succeeded();
                match call {
                    Request::CommitFormat { settings, .. } => if ok {
                        self.status.state = ComponentState::Configured;
                        self.status.output = settings;
                    },
                    Request::EnableComponent(_) => if ok {
                        self.status.state = ComponentState::Enabled;
                    },
                    Request::DisableComponent(_) => {
                        self.status.state = ComponentState::Disabled;
                    },
                    Request::DisablePort(_) => {
                        self.status.output.is_enabled = false;
                    },
                    _ => {},
                }
            },
        }
    }

    /// Takes the pool out of the encoder, for a moment.
    pub(crate) fn take_pool(&mut self) -> (pool: Option<BufferPool>)
        ensures
            final(self)@ == (EncoderView { pool: None, ..old(self)@ }),
            pool is Some == old(self)@.pool is Some,
            pool matches Some(p) ==> Some(p@) == old(self)@.pool,
            final(self).param_spec() == old(self).param_spec(),
    {
        self.pool.take()
    }

    /// Puts the pool back into the encoder.
    pub(crate) fn put_pool(&mut self, pool: BufferPool)
        ensures
            final(self)@ == (EncoderView { pool: Some(pool@), ..old(self)@ }),
            final(self).param_spec() == old(self).param_spec(),
    {
        self.pool = Some(pool);
    }

    /// Starts an operation with `call`, unless a call is in flight.
    fn start(&mut self, call: Request) -> (outcome: Outcome)
        ensures
            final(self)@ == old(self)@.started(call).0,
            outcome == old(self)@.started(call).1,
            final(self).param_spec() == old(self).param_spec(),
    {
        match self.status.awaiting {
            Some(pending) => Outcome::Call(pending),
            None => {
                self.status.awaiting = Some(call);
                Outcome::Call(call)
            },
        }
    }

    /// Goes on taking the encoder down: first the pool, then the component.
    fn destroy_all(&mut self) -> (outcome: Outcome)
        ensures
            final(self)@ == old(self)@.torn_down().0,
            outcome == old(self)@.torn_down().1,
            final(self).param_spec() == old(self).param_spec(),
    {
        if self.pool.is_some() {
            self.start(Request::DestroyPool(PortRef::output(ComponentKind::Encoder, 0)))
        } else if self.status.state.holds_handle() {
            self.start(Request::DestroyComponent(ComponentKind::Encoder))
        } else {
            let failure = self.status.failure;
            let restart = self.status.restart;
            self.status.failure = None;
            self.status.restart = false;
            match failure {
                Some((kind, status)) => Outcome::Failed(kind, status),
                None => if restart {
                    self.start(Request::CreateComponent(ComponentKind::Encoder))
                } else {
                    Outcome::Finished
                },
            }
        }
    }

    /// Goes on with the refill.
    fn refill(&mut self) -> (outcome: Outcome)
        ensures
            final(self)@ == old(self)@.refilled().0,
            outcome == old(self)@.refilled().1,
            final(self).param_spec() == old(self).param_spec(),
    {
        if self.status.remaining == 0 {
            return Outcome::Finished;
        }
        let buffer = match self.pool.take() {
            Some(mut pool) => {
                let buffer = pool.get();
                self.pool = Some(pool);
                buffer
            },
            None => None,
        };
        match buffer {
            Some(buffer) => {
                self.status.remaining = self.status.remaining - 1;
                self.start(
                    Request::SendBuffer { port: PortRef::output(ComponentKind::Encoder, 0), buffer },
                )
            },
            None => {
                self.status.remaining = 0;
                Outcome::Failed(VideoErrorKind::PoolExhausted, MMAL_EINVAL)
            },
        }
    }

    /// Starts to bring the encoder up: create the component, commit the
    /// format of its output port, enable it, create the pool of the output
    /// port. If a step fails, what exists is destroyed again and the
    /// operation ends with the error of that step.
    pub fn init(&mut self) -> (step: Step<()>)
        ensures
            final(self)@ == old(self)@.init_spec().0,
            step.is(old(self)@.init_spec().1),
            final(self).param_spec() == old(self).param_spec(),
    {
        let outcome = if self.status.awaiting.is_some() {
            self.start(Request::CreateComponent(ComponentKind::Encoder))
        } else {
            self.status.restart = true;
            self.destroy_all()
        };
        Step::of(outcome)
    }

    /// Starts to disable the component. A component that is not enabled is
    /// left as it is, and the operation is over at once.
    pub fn disable(&mut self) -> (step: Step<()>)
        ensures
            final(self)@ == old(self)@.disable_spec().0,
            step.is(old(self)@.disable_spec().1),
            final(self).param_spec() == old(self).param_spec(),
    {
        let outcome = if self.status.awaiting.is_none() && !matches!(
            self.status.state,
            ComponentState::Enabled
        ) {
            Outcome::Finished
        } else {
            self.start(Request::DisableComponent(ComponentKind::Encoder))
        };
        Step::of(outcome)
    }

    /// Starts to destroy the pool and the component. Where neither exists,
    /// the operation is over at once.
    pub fn destroy(&mut self) -> (step: Step<()>)
        ensures
            final(self)@ == old(self)@.destroy_spec().0,
            step.is(old(self)@.destroy_spec().1),
            final(self).param_spec() == old(self).param_spec(),
    {
        let outcome = if self.status.awaiting.is_some() {
            self.start(Request::DestroyComponent(ComponentKind::Encoder))
        } else {
            self.destroy_all()
        };
        Step::of(outcome)
    }

    /// Starts to send every buffer that is free in the pool to the output
    /// port, the one that has been free the longest first. The operation
    /// ends with an error as soon as the port refuses a buffer.
    pub fn send_queue_buffers(&mut self) -> (step: Step<()>)
        ensures
            final(self)@ == old(self)@.send_queue_buffers_spec().0,
            step.is(old(self)@.send_queue_buffers_spec().1),
            final(self).param_spec() == old(self).param_spec(),
    {
        let outcome = if self.status.awaiting.is_some() {
            self.start(Request::DestroyComponent(ComponentKind::Encoder))
        } else {
            let free = match &self.pool {
                Some(pool) => Some(pool.len()),
                None => None,
            };
            match free {
                Some(free) => {
                    self.status.remaining = free;
                    self.refill()
                },
                None => Outcome::Failed(VideoErrorKind::PoolExhausted, MMAL_EINVAL),
            }
        };
        Step::of(outcome)
    }

    /// Takes the reply to the call that was handed out last, and goes on with
    /// the operation.
    pub fn resume(&mut self, reply: &Reply) -> (step: Step<()>)
        ensures
            final(self)@ == old(self)@.resume_spec(old(self).param_spec(), *reply).0,
            step.is(old(self)@.resume_spec(old(self).param_spec(), *reply).1),
            final(self).param_spec() == old(self).param_spec(),
    {
        let outcome = match self.status.awaiting {
            None => Outcome::Finished,
            Some(call) => {
                self.absorb(call, reply);
                if matches!(call, Request::DestroyPool(_) | Request::DestroyComponent(_)) {
                    self.destroy_all()
                } else if !EncoderComponent::call_succeeded(call, reply) {
                    if matches!(call, Request::SendBuffer { .. }) {
                        Outcome::Failed(VideoErrorKind::BufferSubmit, reply.status())
                    } else {
                        self.status.failure = Some(
                            (EncoderComponent::failure_kind(call), reply.status()),
                        );
                        self.destroy_all()
                    }
                } else if matches!(call, Request::SendBuffer { .. }) {
                    self.refill()
                } else {
                    match self.set_all_port_formats(call) {
                        Some(request) => self.start(request),
                        None => Outcome::Finished,
                    }
                }
            },
        };
        Step::of(outcome)
    }

}

/// When every call succeeds, the encoder comes up: the initialisation makes
/// its four calls in their order, commits the settings made from what the
/// creation has read of the ports, and ends in success with the component
/// enabled and a pool of as many buffers, of such a size, as were committed,
/// all of them free.
pub proof fn lemma_encoder_init_succeeds(param: VideoParam, created: Reply, done: Reply)
    requires
        created.succeeded_spec(),
        created.has_component_spec(),
        created.input_spec().len() >= 1,
        created.output_spec().len() >= 1,
        done.succeeded_spec(),
    ensures
        ({
            let settings = encoder_port_settings_spec(
                param,
                created.input_spec()[0],
                created.output_spec()[0],
            );
            let s0 = EncoderView::new_spec().init_spec();
            let s1 = s0.0.resume_spec(param, created);
            let s2 = s1.0.resume_spec(param, done);
            let s3 = s2.0.resume_spec(param, done);
            let s4 = s3.0.resume_spec(param, done);
            &&& s0.1 == Outcome::Call(Request::CreateComponent(ComponentKind::Encoder))
            &&& s1.1 == Outcome::Call(
                Request::CommitFormat {
                    port: encoder_output_spec(),
                    template: Some(encoder_input_spec()),
                    settings,
                },
            )
            &&& s2.1 == Outcome::Call(Request::EnableComponent(ComponentKind::Encoder))
            &&& s3.1 == Outcome::Call(
                Request::CreatePool {
                    port: encoder_output_spec(),
                    buffer_num: settings.buffer_num,
                    buffer_size: settings.buffer_size,
                },
            )
            &&& s4.1 == Outcome::Finished
            &&& s4.0.status.state is Enabled
            &&& s4.0.status.output == settings
            &&& s4.0.pool == Some(PoolView::fresh(settings.buffer_num, settings.buffer_size))
            &&& settings.buffer_num >= MIN_ENCODER_BUFFERS
        }),
{
}

impl EncoderView {
    /// The encoder after a refill has begun and the port has accepted the
    /// first `sent` buffers.
    pub open spec fn refill_after(self, param: VideoParam, sent: nat) -> (EncoderView, Outcome)
        decreases sent,
    {
        if sent == 0 {
            self.send_queue_buffers_spec()
        } else {
            self.refill_after(param, (sent - 1) as nat).0.resume_spec(param, Reply::Status(0))
        }
    }
}

/// A refill sends every buffer that was free when it began, each of them
/// once, the one that has been free the longest first: as long as the port
/// accepts them, the call after `sent` buffers is the one that sends the next
/// of them, and after the last of them the refill ends in success, with no
/// buffer free.
pub proof fn lemma_refill_sends_all(encoder: EncoderView, param: VideoParam, sent: nat)
    requires
        encoder.status.awaiting is None,
        encoder.pool is Some,
        sent <= encoder.pool->Some_0.free.len(),
        encoder.pool->Some_0.free.len() <= usize::MAX,
    ensures
        ({
            let free = encoder.pool->Some_0.free;
            let (after, outcome) = encoder.refill_after(param, sent);
            &&& after.pool is Some
            &&& after.status.state == encoder.status.state
            &&& if sent < free.len() {
                &&& outcome == Outcome::Call(
                    Request::SendBuffer { port: encoder_output_spec(), buffer: free[sent as int] },
                )
                &&& after.status.awaiting == Some(outcome->Call_0)
                &&& after.pool->Some_0.free == free.skip(sent as int + 1)
                &&& after.status.remaining == free.len() - sent - 1
            } else {
                &&& outcome == Outcome::Finished
                &&& after.status.awaiting is None
                &&& after.pool->Some_0.free.len() == 0
            }
        }),
    decreases sent,
{
    let free = encoder.pool->Some_0.free;
    if sent == 0 {
        if free.len() > 0 {
            assert(free.drop_first() =~= free.skip(1));
        }
    } else {
        lemma_refill_sends_all(encoder, param, (sent - 1) as nat);
        let before = encoder.refill_after(param, (sent - 1) as nat).0;
        assert(before.pool->Some_0.free == free.skip(sent as int));
        if sent < free.len() {
            assert(free.skip(sent as int)[0] == free[sent as int]);
            assert(free.skip(sent as int).drop_first() =~= free.skip(sent as int + 1));
        }
    }
}

impl VideoInputPort for EncoderComponent {
    /// The encoder's first input port.
    open spec fn input_port_spec(&self) -> PortRef {
        encoder_input_spec()
    }

    fn raw_input_port(&self) -> (port: PortRef) {
        PortRef::input(ComponentKind::Encoder, 0)
    }
}

impl VideoOutputPort for EncoderComponent {
    /// The encoder's first output port.
    open spec fn output_port_spec(&self) -> PortRef {
        encoder_output_spec()
    }

    /// Starts to disable the output port. Nothing is to do unless a component
    /// exists and the port is enabled.
    fn disable_output_port(&mut self) -> (step: Step<()>)
        ensures
            final(self)@ == old(self)@.disable_output_port_spec().0,
            step.is(old(self)@.disable_output_port_spec().1),
            final(self).param_spec() == old(self).param_spec(),
    {
        let outcome = if self.status.awaiting.is_none() && !(self.status.state.holds_handle()
            && self.status.output.is_enabled) {
            Outcome::Finished
        } else {
            self.start(Request::DisablePort(PortRef::output(ComponentKind::Encoder, 0)))
        };
        Step::of(outcome)
    }

    fn raw_output_port(&self) -> (port: PortRef) {
        PortRef::output(ComponentKind::Encoder, 0)
    }
}

impl VideoPool for EncoderComponent {
    open spec fn pool_spec(&self) -> Option<PoolView> {
        self@.pool
    }

    fn raw_pool(&self) -> (pool: Option<&BufferPool>) {
        self.pool.as_ref()
    }
}

impl EncoderView {
    /// Whether the call in flight goes with what exists: a creation is under
    /// way only while nothing exists, the pool is made only for an enabled
    /// component without one and destroyed before the component, a buffer is on its way
    /// to the port only while there is a pool; an error or a restart is
    /// pending only during a teardown; the pool is well formed.
    pub open spec fn wf(self) -> bool {
        let holds = self.status.state.holds_handle_spec();
        &&& match self.status.awaiting {
            None => true,
            Some(Request::CreateComponent(kind)) => kind == ComponentKind::Encoder && !holds,
            Some(Request::DestroyComponent(kind)) => kind == ComponentKind::Encoder && holds
                && self.pool is None,
            Some(Request::CommitFormat { .. }) => holds && self.pool is None,
            Some(Request::EnableComponent(_)) => holds && self.pool is None,
            Some(Request::DisableComponent(_)) => holds,
            Some(Request::DisablePort(_)) => holds,
            Some(Request::CreatePool { .. }) => self.status.state is Enabled && self.pool is None,
            Some(Request::DestroyPool(_)) => self.pool is Some,
            Some(Request::SendBuffer { .. }) => self.pool is Some,
            Some(_) => false,
        }
        &&& (self.status.failure is Some || self.status.restart) ==> (self.status.awaiting matches Some(
            call,
        ) && (call is DestroyPool || call is DestroyComponent))
        &&& self.pool matches Some(pool) ==> holds && pool.wf()
    }

    /// The handles that the encoder holds.
    pub open spec fn handles(self) -> Handles {
        Handles {
            encoders: if self.status.state.holds_handle_spec() {
                1
            } else {
                0
            },
            pools: if self.pool is Some {
                1
            } else {
                0
            },
            ..Handles::none()
        }
    }
}

/// A new encoder is well formed and holds nothing.
pub proof fn lemma_new_encoder()
    ensures
        EncoderView::new_spec().wf(),
        EncoderView::new_spec().handles() == Handles::none(),
{
}

/// Every operation keeps the encoder well formed; starting one changes no
/// handle.
pub proof fn lemma_encoder_operations_keep_wf(encoder: EncoderView)
    requires
        encoder.wf(),
    ensures
        encoder.init_spec().0.wf(),
        encoder.disable_spec().0.wf(),
        encoder.destroy_spec().0.wf(),
        encoder.send_queue_buffers_spec().0.wf(),
        encoder.disable_output_port_spec().0.wf(),
        encoder.init_spec().0.handles() == encoder.handles(),
        encoder.disable_spec().0.handles() == encoder.handles(),
        encoder.destroy_spec().0.handles() == encoder.handles(),
        encoder.send_queue_buffers_spec().0.handles() == encoder.handles(),
        encoder.disable_output_port_spec().0.handles() == encoder.handles(),
{
    if encoder.pool is Some {
        let pool = encoder.pool->Some_0;
        if pool.free.len() > 0 {
            lemma_pool_taken(pool);
        }
    }
}

/// The encoder's books follow the hardware: after every reply the encoder is
/// well formed and holds exactly the handles that the call has left.
pub proof fn lemma_encoder_follows_hardware(encoder: EncoderView, param: VideoParam, reply: Reply)
    requires
        encoder.wf(),
        encoder.status.awaiting is Some,
    ensures
        encoder.resume_spec(param, reply).0.wf(),
        encoder.resume_spec(param, reply).0.handles() == encoder.handles().after(
            encoder.status.awaiting->Some_0,
            reply,
        ),
{
    let call = encoder.status.awaiting->Some_0;
    let next = encoder.absorbed(call, reply);
    match call {
        Request::CreatePool { buffer_num, buffer_size, .. } => {
            lemma_pool_fresh(buffer_num, buffer_size);
        },
        Request::SendBuffer { buffer, .. } => {
            let pool = encoder.pool->Some_0;
            if reply.succeeded_spec() {
                if pool.free.len() > 0 {
                    lemma_pool_taken(pool);
                }
            } else if pool.in_flight(buffer) {
                lemma_pool_restored(pool, buffer);
            }
        },
        _ => {},
    }
}

/// An initialisation that fails leaves nothing behind: whenever a step ends
/// in an error, other than that of a refill, the encoder holds no handle and
/// no call is in flight.
pub proof fn lemma_encoder_failure_leaves_nothing(
    encoder: EncoderView,
    param: VideoParam,
    reply: Reply,
)
    requires
        encoder.wf(),
        !(encoder.status.awaiting matches Some(Request::SendBuffer { .. })),
        encoder.resume_spec(param, reply).1 is Failed,
    ensures
        encoder.resume_spec(param, reply).0.handles() == Handles::none(),
        encoder.resume_spec(param, reply).0.status.awaiting is None,
        encoder.resume_spec(param, reply).0.pool is None,
{
}

/// To disable an encoder that is not enabled, be it new, disabled or
/// destroyed, changes nothing and succeeds at once; and once an encoder has
/// been disabled, it is not enabled.
pub proof fn lemma_encoder_disable_is_idempotent(
    encoder: EncoderView,
    param: VideoParam,
    reply: Reply,
)
    requires
        encoder.status.awaiting is None,
    ensures
        EncoderView::new_spec().disable_spec() == (EncoderView::new_spec(), Outcome::Finished),
        !(encoder.status.state is Enabled) ==> encoder.disable_spec() == (
            encoder,
            Outcome::Finished,
        ),
        encoder.status.state is Enabled ==> ({
            let disabled = encoder.disable_spec().0.resume_spec(param, reply);
            &&& disabled.1 == Outcome::Finished
            &&& disabled.0.status.state is Disabled
            &&& disabled.0.disable_spec() == (disabled.0, Outcome::Finished)
        }),
{
}

} // verus!

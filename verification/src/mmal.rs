//! The boundary to the MMAL layer: status codes, plain descriptions of ports
//! and formats, and the calls and replies that cross the boundary.
//!
//! A [`Request`] names one call for the caller to make; a [`Reply`] carries
//! what the call returned. A [`Step`] is what every operation of this library
//! hands back: the next call to make, or the operation's result.

use vstd::prelude::*;
use crate::video_error::{VideoError, VideoErrorKind};

verus! {

/// The status of a call that succeeded.
pub const MMAL_SUCCESS: u32 = 0;

/// The status that stands for an invalid argument; also reported where a call
/// fails without a status of its own.
pub const MMAL_EINVAL: u32 = 3;

/// The four-character code of H.264.
pub const MMAL_ENCODING_H264: u32 = 0x3436_3248;

/// The four-character code of planar YUV 4:2:0.
pub const MMAL_ENCODING_I420: u32 = 0x3032_3449;

/// The four-character code of the opaque format that tunnels between
/// components.
pub const MMAL_ENCODING_OPAQUE: u32 = 0x5651_504F;

/// Index of the camera's preview port among its output ports.
pub const MMAL_CAMERA_PREVIEW_PORT: usize = 0;

/// Index of the camera's video port among its output ports.
pub const MMAL_CAMERA_VIDEO_PORT: usize = 1;

/// Index of the camera's still-capture port among its output ports.
pub const MMAL_CAMERA_CAPTURE_PORT: usize = 2;

/// The number a four-character code packs into: the first character in the
/// lowest byte.
pub open spec fn fourcc_spec(a: u8, b: u8, c: u8, d: u8) -> u32 {
    (a as u32) | ((b as u32) << 8) | ((c as u32) << 16) | ((d as u32) << 24)
}

/// Packs a four-character code.
pub fn mmal_fourcc(a: u8, b: u8, c: u8, d: u8) -> (code: u32)
    ensures
        code == fourcc_spec(a, b, c, d),
{
    (a as u32) | ((b as u32) << 8) | ((c as u32) << 16) | ((d as u32) << 24)
}

/// The encoding constants are the codes of their four characters.
pub proof fn lemma_encoding_codes()
    ensures
        MMAL_ENCODING_H264 == fourcc_spec(0x48, 0x32, 0x36, 0x34),
        MMAL_ENCODING_I420 == fourcc_spec(0x49, 0x34, 0x32, 0x30),
        MMAL_ENCODING_OPAQUE == fourcc_spec(0x4F, 0x50, 0x51, 0x56),
{
    assert(0x3436_3248u32 == (0x48u8 as u32) | ((0x32u8 as u32) << 8) | ((0x36u8 as u32) << 16) | ((
    0x34u8 as u32) << 24)) by (bit_vector);
    assert(0x3032_3449u32 == (0x49u8 as u32) | ((0x34u8 as u32) << 8) | ((0x32u8 as u32) << 16) | ((
    0x30u8 as u32) << 24)) by (bit_vector);
    assert(0x5651_504Fu32 == (0x4Fu8 as u32) | ((0x50u8 as u32) << 8) | ((0x51u8 as u32) << 16) | ((
    0x56u8 as u32) << 24)) by (bit_vector);
}

/// The two processing stages of the pipeline.
#[derive(Clone, Copy, Debug, PartialEq, Eq, Structural)]
pub enum ComponentKind {
    Camera,
    Encoder,
}

/// Which of a component's port lists a port is in.
#[derive(Clone, Copy, Debug, PartialEq, Eq, Structural)]
pub enum PortDirection {
    Control,
    Input,
    Output,
}

/// Names one port of one component.
#[derive(Clone, Copy, Debug, PartialEq, Eq, Structural)]
pub struct PortRef {
    pub component: ComponentKind,
    pub direction: PortDirection,
    pub index: usize,
}

impl PortRef {
    /// The output port of a component at this index.
    pub open spec fn output_spec(component: ComponentKind, index: usize) -> PortRef {
        PortRef { component, direction: PortDirection::Output, index }
    }

    /// The input port of a component at this index.
    pub open spec fn input_spec(component: ComponentKind, index: usize) -> PortRef {
        PortRef { component, direction: PortDirection::Input, index }
    }

    /// The control port of a component.
    pub open spec fn control_spec(component: ComponentKind) -> PortRef {
        PortRef { component, direction: PortDirection::Control, index: 0 }
    }

    /// The output port of a component at this index.
    #[verifier::when_used_as_spec(output_spec)]
    pub fn output(component: ComponentKind, index: usize) -> (port: PortRef)
        ensures
            port == PortRef::output_spec(component, index),
    {
        PortRef { component, direction: PortDirection::Output, index }
    }

    /// The input port of a component at this index.
    #[verifier::when_used_as_spec(input_spec)]
    pub fn input(component: ComponentKind, index: usize) -> (port: PortRef)
        ensures
            port == PortRef::input_spec(component, index),
    {
        PortRef { component, direction: PortDirection::Input, index }
    }

    /// The control port of a component.
    #[verifier::when_used_as_spec(control_spec)]
    pub fn control(component: ComponentKind) -> (port: PortRef)
        ensures
            port == PortRef::control_spec(component),
    {
        PortRef { component, direction: PortDirection::Control, index: 0 }
    }
}

/// The part of a port's elementary-stream format that the pipeline reads or
/// sets.
#[derive(Clone, Copy, Debug, PartialEq, Eq, Structural)]
pub struct VideoFormat {
    pub encoding: u32,
    pub encoding_variant: u32,
    pub bitrate: u32,
    pub width: u32,
    pub height: u32,
    pub crop_x: i32,
    pub crop_y: i32,
    pub crop_width: i32,
    pub crop_height: i32,
    pub frame_rate_num: i32,
    pub frame_rate_den: i32,
}

/// A port as the pipeline sees it: its format and its buffer requirements.
#[derive(Clone, Copy, Debug, PartialEq, Eq, Structural)]
pub struct Port {
    pub format: VideoFormat,
    pub buffer_num: u32,
    pub buffer_size: u32,
    pub buffer_num_min: u32,
    pub buffer_num_recommended: u32,
    pub buffer_size_min: u32,
    pub buffer_size_recommended: u32,
    pub is_enabled: bool,
}

/// How the camera stamps its frames.
#[derive(Clone, Copy, Debug, PartialEq, Eq, Structural)]
pub enum TimestampMode {
    Zero,
    RawStc,
    ResetStc,
}

/// The camera's configuration parameter.
#[derive(Clone, Copy, Debug, PartialEq, Eq, Structural)]
pub struct CameraConfig {
    pub max_stills_w: u32,
    pub max_stills_h: u32,
    pub stills_yuv422: u32,
    pub one_shot_stills: u32,
    pub max_preview_video_w: u32,
    pub max_preview_video_h: u32,
    pub num_preview_video_frames: u32,
    pub stills_capture_circular_buffer_height: u32,
    pub fast_preview_resume: u32,
    pub use_stc_timestamp: TimestampMode,
}

/// Where a component stands in its life.
#[derive(Clone, Copy, Debug, PartialEq, Eq, Structural)]
pub enum ComponentState {
    /// No component exists yet.
    Uninitialized,
    /// The component exists.
    Created,
    /// Its control port is enabled.
    ControlEnabled,
    /// It has its configuration.
    Configured,
    /// It is enabled, its port formats committed.
    Enabled,
    /// It was enabled and has been disabled.
    Disabled,
    /// It existed and has been destroyed.
    Destroyed,
}

impl ComponentState {
    /// Whether a component in this state has a handle on the hardware.
    pub open spec fn holds_handle_spec(self) -> bool {
        !(self is Uninitialized) && !(self is Destroyed)
    }

    /// Whether a component in this state has a handle on the hardware.
    #[verifier::when_used_as_spec(holds_handle_spec)]
    pub fn holds_handle(self) -> (holds: bool)
        ensures
            holds == self.holds_handle_spec(),
    {
        match self {
            ComponentState::Uninitialized => false,
            ComponentState::Destroyed => false,
            _ => true,
        }
    }
}

/// One call for the caller to make on the library's behalf.
#[derive(Clone, Copy, Debug, PartialEq, Eq, Structural)]
pub enum Request {
    /// Bring up the host interface, once per process.
    InitPlatform,
    /// `mmal_component_create` for the default component of this kind. The
    /// reply is a [`Reply::Component`].
    CreateComponent(ComponentKind),
    /// `mmal_component_destroy`.
    DestroyComponent(ComponentKind),
    /// `mmal_component_enable`.
    EnableComponent(ComponentKind),
    /// `mmal_component_disable`.
    DisableComponent(ComponentKind),
    /// `mmal_port_enable`, with the callback that belongs to the port.
    EnablePort(PortRef),
    /// `mmal_port_disable`.
    DisablePort(PortRef),
    /// `mmal_port_parameter_set` of the camera configuration on the camera's
    /// control port.
    SetCameraConfig(CameraConfig),
    /// Give the port the format and buffer numbers of `settings`, then
    /// `mmal_port_format_commit`. With a `template`, `mmal_format_copy` from
    /// that port's format comes first.
    CommitFormat { port: PortRef, template: Option<PortRef>, settings: Port },
    /// `mmal_port_parameter_set_boolean` of the capture parameter to true.
    SetCapture(PortRef),
    /// `mmal_port_pool_create`. The reply is a [`Reply::Outcome`].
    CreatePool { port: PortRef, buffer_num: u32, buffer_size: u32 },
    /// `mmal_port_pool_destroy`.
    DestroyPool(PortRef),
    /// `mmal_port_send_buffer` of the pool's buffer with this number.
    SendBuffer { port: PortRef, buffer: u32 },
    /// `mmal_connection_create` from `output` to `input`.
    CreateConnection { output: PortRef, input: PortRef, tunnelling: bool, allocation_on_input: bool },
    /// `mmal_connection_enable`.
    EnableConnection,
    /// `mmal_connection_destroy`.
    DestroyConnection,
    /// Create the output file of the session; fail if it is there already.
    /// The reply is a [`Reply::Outcome`].
    CreateOutputFile,
    /// Append the record that the session holds out to the output file. The
    /// reply is a [`Reply::Outcome`].
    WriteOutputFile,
    /// Flush the output file to the disk.
    SyncOutputFile,
    /// Block until the output callback has run again.
    AwaitCallback,
}

/// The ports of a component that was created, as the hardware describes them.
#[derive(Debug)]
pub struct ComponentPorts {
    pub input: Vec<Port>,
    pub output: Vec<Port>,
}

/// What a call returned.
#[derive(Debug)]
pub enum Reply {
    /// The status of a call that returns nothing else.
    Status(u32),
    /// Of a call that has no status: whether it succeeded.
    Outcome(bool),
    /// Of a call that has no status and failed: what the failure was, in
    /// the words of whoever made the call.
    Failure(String),
    /// Of `mmal_component_create`: the status, and the ports of the component
    /// if one came back.
    Component { status: u32, ports: Option<ComponentPorts> },
}

impl Reply {
    /// The status that the reply stands for. A call without a status of its
    /// own counts as `MMAL_EINVAL` where it failed.
    pub open spec fn status_spec(&self) -> u32 {
        match self {
            Reply::Status(status) => *status,
            Reply::Outcome(done) => if *done {
                MMAL_SUCCESS
            } else {
                MMAL_EINVAL
            },
            Reply::Failure(_) => MMAL_EINVAL,
            Reply::Component { status, .. } => *status,
        }
    }

    /// What the reply says of the failure, in words; nothing unless it is a
    /// [`Reply::Failure`].
    pub open spec fn detail_spec(&self) -> Seq<char> {
        match self {
            Reply::Failure(text) => text@,
            _ => Seq::empty(),
        }
    }

    /// The input ports that came with the reply; none unless a component did.
    pub open spec fn input_spec(&self) -> Seq<Port> {
        match self {
            Reply::Component { ports: Some(ports), .. } => ports.input@,
            _ => Seq::empty(),
        }
    }

    /// The output ports that came with the reply; none unless a component did.
    pub open spec fn output_spec(&self) -> Seq<Port> {
        match self {
            Reply::Component { ports: Some(ports), .. } => ports.output@,
            _ => Seq::empty(),
        }
    }

    /// Whether a component came with the reply.
    pub open spec fn has_component_spec(&self) -> bool {
        self matches Reply::Component { ports: Some(_), .. }
    }

    /// Whether the reply reports success.
    pub open spec fn succeeded_spec(&self) -> bool {
        self.status_spec() == MMAL_SUCCESS
    }

    /// The status that the reply stands for.
    #[verifier::when_used_as_spec(status_spec)]
    pub fn status(&self) -> (status: u32)
        ensures
            status == self.status_spec(),
    {
        match self {
            Reply::Status(status) => *status,
            Reply::Outcome(done) => if *done {
                MMAL_SUCCESS
            } else {
                MMAL_EINVAL
            },
            Reply::Failure(_) => MMAL_EINVAL,
            Reply::Component { status, .. } => *status,
        }
    }

    /// What the reply says of the failure, in words.
    pub fn detail(&self) -> (text: &str)
        ensures
            text@ == self.detail_spec(),
    {
        match self {
            Reply::Failure(text) => text.as_str(),
            _ => {
                proof {
                    reveal_strlit("");
                }
                assert(""@ =~= Seq::<char>::empty());
                ""
            },
        }
    }

    /// Whether the reply reports success.
    #[verifier::when_used_as_spec(succeeded_spec)]
    pub fn succeeded(&self) -> (ok: bool)
        ensures
            ok == self.succeeded_spec(),
    {
        self.status() == MMAL_SUCCESS
    }

    /// Whether a component came with the reply.
    #[verifier::when_used_as_spec(has_component_spec)]
    pub fn has_component(&self) -> (has: bool)
        ensures
            has == self.has_component_spec(),
    {
        match self {
            Reply::Component { ports: Some(_), .. } => true,
            _ => false,
        }
    }
}

/// How many handles of each kind exist on the hardware.
pub struct Handles {
    pub cameras: nat,
    pub encoders: nat,
    pub pools: nat,
    pub connections: nat,
}

impl Handles {
    /// No handle at all.
    pub open spec fn none() -> Handles {
        Handles { cameras: 0, encoders: 0, pools: 0, connections: 0 }
    }

    /// The sum of two counts, kind by kind.
    pub open spec fn plus(self, other: Handles) -> Handles {
        Handles {
            cameras: self.cameras + other.cameras,
            encoders: self.encoders + other.encoders,
            pools: self.pools + other.pools,
            connections: self.connections + other.connections,
        }
    }

    /// What a call does to the handles that exist: a creation that brings a
    /// handle adds one, a destruction takes one away, no other call changes
    /// the count.
    pub open spec fn after(self, call: Request, reply: Reply) -> Handles {
        match call {
            Request::CreateComponent(ComponentKind::Camera) => if reply.has_component_spec() {
                Handles { cameras: self.cameras + 1, ..self }
            } else {
                self
            },
            Request::CreateComponent(ComponentKind::Encoder) => if reply.has_component_spec() {
                Handles { encoders: self.encoders + 1, ..self }
            } else {
                self
            },
            Request::DestroyComponent(ComponentKind::Camera) => Handles {
                cameras: if self.cameras > 0 {
                    (self.cameras - 1) as nat
                } else {
                    0
                },
                ..self
            },
            Request::DestroyComponent(ComponentKind::Encoder) => Handles {
                encoders: if self.encoders > 0 {
                    (self.encoders - 1) as nat
                } else {
                    0
                },
                ..self
            },
            Request::CreatePool { .. } => if reply.succeeded_spec() {
                Handles { pools: self.pools + 1, ..self }
            } else {
                self
            },
            Request::DestroyPool(_) => Handles {
                pools: if self.pools > 0 {
                    (self.pools - 1) as nat
                } else {
                    0
                },
                ..self
            },
            Request::CreateConnection { .. } => if reply.succeeded_spec() {
                Handles { connections: self.connections + 1, ..self }
            } else {
                self
            },
            Request::DestroyConnection => Handles {
                connections: if self.connections > 0 {
                    (self.connections - 1) as nat
                } else {
                    0
                },
                ..self
            },
            _ => self,
        }
    }
}

/// How a step of an operation ends, without the wording of the error.
#[derive(Clone, Copy, Debug, PartialEq, Eq, Structural)]
pub enum Outcome {
    /// A call is to be made.
    Call(Request),
    /// The operation is over and succeeded.
    Finished,
    /// The operation is over and failed, with this kind of error and status.
    Failed(VideoErrorKind, u32),
}

/// Where an operation stands.
#[derive(Debug)]
pub enum Step<T> {
    /// Make this call, then hand the reply to the same object's `resume`.
    Call(Request),
    /// The operation is over, with this result.
    Done(Result<T, VideoError>),
}

impl<T> Step<T> {
    /// Whether the operation ended in success.
    pub open spec fn is_ok(&self) -> bool {
        self matches Step::Done(Ok(_))
    }

    /// Whether the operation ended in an error.
    pub open spec fn is_err(&self) -> bool {
        self matches Step::Done(Err(_))
    }

    /// Whether the step ends as `outcome` says; an error has the message that
    /// belongs to its kind.
    pub open spec fn is(&self, outcome: Outcome) -> bool {
        match outcome {
            Outcome::Call(request) => self matches Step::Call(call) && call == request,
            Outcome::Finished => self is Done && self->Done_0 is Ok,
            Outcome::Failed(kind, status) => self matches Step::Done(Err(error)) && error.is(
                kind,
                status,
            ),
        }
    }

    /// Whether the step ends as `outcome` says, in a session that writes to
    /// the file at `path`: an error about the output file names the file and
    /// gives `detail`, what the file system said.
    pub open spec fn is_at(&self, outcome: Outcome, path: Seq<char>, detail: Seq<char>) -> bool {
        match outcome {
            Outcome::Call(request) => self matches Step::Call(call) && call == request,
            Outcome::Finished => self is Done && self->Done_0 is Ok,
            Outcome::Failed(kind, status) => self matches Step::Done(Err(error)) && error.is_at(
                kind,
                status,
                path,
                detail,
            ),
        }
    }
}

impl<T> Step<T> {
    /// How the step ends, without the wording of the error and without what
    /// a success hands back.
    pub open spec fn outcome_spec(&self) -> Outcome {
        match self {
            Step::Call(request) => Outcome::Call(*request),
            Step::Done(Ok(_)) => Outcome::Finished,
            Step::Done(Err(error)) => Outcome::Failed(error.kind, error.mmal_status),
        }
    }

    /// How the step ends.
    pub fn outcome(self) -> (outcome: Outcome)
        ensures
            outcome == self.outcome_spec(),
            forall|other: Outcome| self.is(other) ==> outcome == other,
            forall|other: Outcome, path: Seq<char>, detail: Seq<char>|
                self.is_at(other, path, detail) ==> outcome == other,
    {
        match self {
            Step::Call(request) => Outcome::Call(request),
            Step::Done(Ok(_)) => Outcome::Finished,
            Step::Done(Err(error)) => Outcome::Failed(error.kind, error.mmal_status),
        }
    }
}

impl Step<()> {
    /// The step that ends as `outcome` says.
    pub fn of(outcome: Outcome) -> (step: Step<()>)
        ensures
            step.is(outcome),
    {
        match outcome {
            Outcome::Call(request) => Step::Call(request),
            Outcome::Finished => Step::Done(Ok(())),
            Outcome::Failed(kind, status) => Step::Done(Err(VideoError::new(kind, status))),
        }
    }

    /// The step that ends as `outcome` says, in a session that writes to the
    /// file at `path`, where the file system said `detail` of a failure.
    pub fn at(outcome: Outcome, path: &str, detail: &str) -> (step: Step<()>)
        ensures
            step.is_at(outcome, path@, detail@),
    {
        match outcome {
            Outcome::Call(request) => Step::Call(request),
            Outcome::Finished => Step::Done(Ok(())),
            Outcome::Failed(kind, status) => Step::Done(
                Err(VideoError::at(kind, status, path, detail)),
            ),
        }
    }
}

} // verus!

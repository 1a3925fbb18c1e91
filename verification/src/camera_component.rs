//! The camera: the component that produces the raw frames.

use vstd::prelude::*;
use crate::mmal::{
    CameraConfig, ComponentKind, ComponentState, Handles, Outcome, Port, PortRef, Reply,
    Request, Step, TimestampMode, VideoFormat, MMAL_CAMERA_CAPTURE_PORT, MMAL_CAMERA_PREVIEW_PORT,
    MMAL_CAMERA_VIDEO_PORT, MMAL_EINVAL, MMAL_ENCODING_I420, MMAL_ENCODING_OPAQUE,
};
use crate::video_error::VideoErrorKind;
use crate::video_output_port::VideoOutputPort;
use crate::video_param::VideoParam;

verus! {

/// The fewest buffers a camera port is given.
pub const MIN_CAMERA_BUFFERS: u32 = 3;

/// The number of output ports that a camera must have.
pub const CAMERA_OUTPUT_PORTS: usize = 3;

/// A width or height as the crop rectangle holds it: the same 32 bits, read
/// as a signed number.
pub open spec fn crop_extent_spec(extent: u32) -> int {
    if extent <= 0x7fff_ffff {
        extent as int
    } else {
        extent - 0x1_0000_0000
    }
}

/// A width or height as the crop rectangle holds it.
pub fn crop_extent(extent: u32) -> (signed: i32)
    ensures
        signed == crop_extent_spec(extent),
{
    let signed = #[verifier::truncate]
    (extent as i32);
    assert(extent <= 0x7fff_ffffu32 ==> (extent as i32) as int == extent as int) by (bit_vector);
    assert(extent > 0x7fff_ffffu32 ==> (extent as i32) as int == extent as int - 0x1_0000_0000)
        by (bit_vector);
    signed
}

/// The configuration that the camera is given for these parameters.
pub open spec fn camera_config_spec(param: VideoParam) -> CameraConfig {
    CameraConfig {
        max_stills_w: param.width,
        max_stills_h: param.height,
        stills_yuv422: 0,
        one_shot_stills: 0,
        max_preview_video_w: param.width,
        max_preview_video_h: param.height,
        num_preview_video_frames: 3,
        stills_capture_circular_buffer_height: 0,
        fast_preview_resume: 0,
        use_stc_timestamp: TimestampMode::ResetStc,
    }
}

/// What a camera port is set to before its format is committed: the opaque
/// encoding over I420, the requested size as frame and as crop rectangle, the
/// requested frame rate over 1, and at least three buffers. The rest of the
/// port stays as it is.
pub open spec fn camera_port_settings_spec(param: VideoParam, port: Port) -> Port {
    Port {
        format: VideoFormat {
            encoding: MMAL_ENCODING_OPAQUE,
            encoding_variant: MMAL_ENCODING_I420,
            width: param.width,
            height: param.height,
            crop_x: 0,
            crop_y: 0,
            crop_width: crop_extent_spec(param.width) as i32,
            crop_height: crop_extent_spec(param.height) as i32,
            frame_rate_num: param.frame_rate,
            frame_rate_den: 1,
            ..port.format
        },
        buffer_num: if port.buffer_num < MIN_CAMERA_BUFFERS {
            MIN_CAMERA_BUFFERS
        } else {
            port.buffer_num
        },
        ..port
    }
}

/// The three output ports of a camera.
#[derive(Clone, Copy, Debug, PartialEq, Eq, Structural)]
pub struct CameraPorts {
    pub preview: Port,
    pub video: Port,
    pub capture: Port,
}

impl CameraPorts {
    /// The port at this index among the camera's output ports.
    pub open spec fn get_spec(self, index: usize) -> Port {
        if index == MMAL_CAMERA_PREVIEW_PORT {
            self.preview
        } else if index == MMAL_CAMERA_VIDEO_PORT {
            self.video
        } else {
            self.capture
        }
    }

    /// These ports, with the one at this index replaced. An index that names
    /// no port changes nothing.
    pub open spec fn with_spec(self, index: usize, port: Port) -> CameraPorts {
        if index == MMAL_CAMERA_PREVIEW_PORT {
            CameraPorts { preview: port, ..self }
        } else if index == MMAL_CAMERA_VIDEO_PORT {
            CameraPorts { video: port, ..self }
        } else if index == MMAL_CAMERA_CAPTURE_PORT {
            CameraPorts { capture: port, ..self }
        } else {
            self
        }
    }

    /// The port at this index among the camera's output ports.
    #[verifier::when_used_as_spec(get_spec)]
    pub fn get(self, index: usize) -> (port: Port)
        ensures
            port == self.get_spec(index),
    {
        if index == MMAL_CAMERA_PREVIEW_PORT {
            self.preview
        } else if index == MMAL_CAMERA_VIDEO_PORT {
            self.video
        } else {
            self.capture
        }
    }

    /// These ports, with the one at this index replaced.
    #[verifier::when_used_as_spec(with_spec)]
    pub fn with(self, index: usize, port: Port) -> (ports: CameraPorts)
        ensures
            ports == self.with_spec(index, port),
    {
        if index == MMAL_CAMERA_PREVIEW_PORT {
            CameraPorts { preview: port, ..self }
        } else if index == MMAL_CAMERA_VIDEO_PORT {
            CameraPorts { video: port, ..self }
        } else if index == MMAL_CAMERA_CAPTURE_PORT {
            CameraPorts { capture: port, ..self }
        } else {
            self
        }
    }
}

/// Everything about a camera that changes over its life.
#[derive(Clone, Copy, Debug)]
pub struct CameraStatus {
    /// Where the component stands.
    pub state: ComponentState,
    /// The call that is being made, if one is.
    pub awaiting: Option<Request>,
    /// Why the initialisation is being undone, while it is.
    pub failure: Option<(VideoErrorKind, u32)>,
    /// Whether a new component is to be created once the old one is gone.
    pub restart: bool,
    /// The output ports, as last read or committed.
    pub ports: CameraPorts,
}

/// The request to commit the format of the camera's output port at `index`.
pub open spec fn commit_request_spec(param: VideoParam, ports: CameraPorts, index: usize) -> Request {
    Request::CommitFormat {
        port: PortRef::output_spec(ComponentKind::Camera, index),
        template: None,
        settings: camera_port_settings_spec(param, ports.get_spec(index)),
    }
}

impl CameraStatus {
    /// A camera that has not been created.
    pub open spec fn new_spec() -> CameraStatus {
        let port = Port {
            format: VideoFormat {
                encoding: 0,
                encoding_variant: 0,
                bitrate: 0,
                width: 0,
                height: 0,
                crop_x: 0,
                crop_y: 0,
                crop_width: 0,
                crop_height: 0,
                frame_rate_num: 0,
                frame_rate_den: 0,
            },
            buffer_num: 0,
            buffer_size: 0,
            buffer_num_min: 0,
            buffer_num_recommended: 0,
            buffer_size_min: 0,
            buffer_size_recommended: 0,
            is_enabled: false,
        };
        CameraStatus {
            state: ComponentState::Uninitialized,
            awaiting: None,
            failure: None,
            restart: false,
            ports: CameraPorts { preview: port, video: port, capture: port },
        }
    }

    /// Whether the call succeeded, as far as the camera cares: a creation
    /// must bring a component with all three output ports, a configuration
    /// or a teardown call cannot fail, every other call must report success.
    pub open spec fn call_succeeded(call: Request, reply: Reply) -> bool {
        match call {
            Request::CreateComponent(_) => reply.succeeded_spec() && reply.has_component_spec()
                && reply.output_spec().len() >= CAMERA_OUTPUT_PORTS,
            Request::SetCameraConfig(_) => true,
            Request::DestroyComponent(_) => true,
            Request::DisableComponent(_) => true,
            Request::DisablePort(_) => true,
            _ => reply.succeeded_spec(),
        }
    }

    /// The kind of error that the failure of this call stands for.
    pub open spec fn failure_kind(call: Request) -> VideoErrorKind {
        match call {
            Request::CreateComponent(_) => VideoErrorKind::ComponentCreate,
            Request::EnablePort(_) => VideoErrorKind::ControlPortEnable,
            Request::CommitFormat { .. } => VideoErrorKind::FormatCommit,
            Request::SetCapture(_) => VideoErrorKind::CaptureStart,
            _ => VideoErrorKind::ComponentEnable,
        }
    }

    /// The camera once the call has been made: what the call did to the
    /// component and its ports. Nothing is in flight.
    pub open spec fn absorbed(self, call: Request, reply: Reply) -> CameraStatus {
        let rest = CameraStatus { awaiting: None, ..self };
        match call {
            Request::CreateComponent(_) => if CameraStatus::call_succeeded(call, reply) {
                CameraStatus {
                    state: ComponentState::Created,
                    ports: CameraPorts {
                        preview: reply.output_spec()[MMAL_CAMERA_PREVIEW_PORT as int],
                        video: reply.output_spec()[MMAL_CAMERA_VIDEO_PORT as int],
                        capture: reply.output_spec()[MMAL_CAMERA_CAPTURE_PORT as int],
                    },
                    ..rest
                }
            } else if reply.has_component_spec() {
                CameraStatus { state: ComponentState::Created, ..rest }
            } else {
                rest
            },
            Request::EnablePort(_) => if reply.succeeded_spec() {
                CameraStatus { state: ComponentState::ControlEnabled, ..rest }
            } else {
                rest
            },
            Request::SetCameraConfig(_) => CameraStatus { state: ComponentState::Configured, ..rest },
            Request::CommitFormat { port, settings, .. } => if reply.succeeded_spec() {
                CameraStatus { ports: self.ports.with_spec(port.index, settings), ..rest }
            } else {
                rest
            },
            Request::EnableComponent(_) => if reply.succeeded_spec() {
                CameraStatus { state: ComponentState::Enabled, ..rest }
            } else {
                rest
            },
            Request::DisableComponent(_) => CameraStatus { state: ComponentState::Disabled, ..rest },
            Request::DestroyComponent(_) => CameraStatus {
                state: if self.failure is Some || self.restart {
                    ComponentState::Uninitialized
                } else {
                    ComponentState::Destroyed
                },
                failure: None,
                restart: false,
                ..rest
            },
            Request::DisablePort(_) => CameraStatus {
                ports: CameraPorts {
                    video: Port { is_enabled: false, ..self.ports.video },
                    ..self.ports
                },
                ..rest
            },
            _ => rest,
        }
    }

    /// The call that follows `call` while the camera is initialised: create,
    /// enable the control port, configure, commit the formats of the capture,
    /// the preview and the video port, enable. `None` where `call` ends an
    /// operation.
    pub open spec fn following(self, param: VideoParam, call: Request) -> Option<Request> {
        match call {
            Request::CreateComponent(_) => Some(
                Request::EnablePort(PortRef::control_spec(ComponentKind::Camera)),
            ),
            Request::EnablePort(_) => Some(Request::SetCameraConfig(camera_config_spec(param))),
            Request::SetCameraConfig(_) => Some(
                commit_request_spec(param, self.ports, MMAL_CAMERA_CAPTURE_PORT),
            ),
            Request::CommitFormat { port, .. } => if port.index == MMAL_CAMERA_CAPTURE_PORT {
                Some(commit_request_spec(param, self.ports, MMAL_CAMERA_PREVIEW_PORT))
            } else if port.index == MMAL_CAMERA_PREVIEW_PORT {
                Some(commit_request_spec(param, self.ports, MMAL_CAMERA_VIDEO_PORT))
            } else {
                Some(Request::EnableComponent(ComponentKind::Camera))
            },
            _ => None,
        }
    }

    /// Gives up the initialisation: if a component exists, it is destroyed
    /// first and the error reported after that; else the error is reported.
    pub open spec fn rolled_back(self, kind: VideoErrorKind, status: u32) -> (CameraStatus, Outcome) {
        if self.state.holds_handle_spec() {
            let call = Request::DestroyComponent(ComponentKind::Camera);
            (
                CameraStatus { awaiting: Some(call), failure: Some((kind, status)), ..self },
                Outcome::Call(call),
            )
        } else {
            (CameraStatus { awaiting: None, ..self }, Outcome::Failed(kind, status))
        }
    }

    /// Starts an operation with `call`, unless a call is in flight already:
    /// then nothing changes, and that call is handed out again.
    pub open spec fn started(self, call: Request) -> (CameraStatus, Outcome) {
        match self.awaiting {
            Some(pending) => (self, Outcome::Call(pending)),
            None => (CameraStatus { awaiting: Some(call), ..self }, Outcome::Call(call)),
        }
    }

    /// Starts the initialisation. A component that exists is destroyed first.
    pub open spec fn init_spec(self) -> (CameraStatus, Outcome) {
        if self.awaiting is None && self.state.holds_handle_spec() {
            CameraStatus { restart: true, ..self }.started(
                Request::DestroyComponent(ComponentKind::Camera),
            )
        } else {
            self.started(Request::CreateComponent(ComponentKind::Camera))
        }
    }

    /// Starts to disable the component. Nothing is to do unless it is enabled.
    pub open spec fn disable_spec(self) -> (CameraStatus, Outcome) {
        if self.awaiting is None && !(self.state is Enabled) {
            (self, Outcome::Finished)
        } else {
            self.started(Request::DisableComponent(ComponentKind::Camera))
        }
    }

    /// Starts to destroy the component. Nothing is to do where none exists.
    pub open spec fn destroy_spec(self) -> (CameraStatus, Outcome) {
        if self.awaiting is None && !self.state.holds_handle_spec() {
            (self, Outcome::Finished)
        } else {
            self.started(Request::DestroyComponent(ComponentKind::Camera))
        }
    }

    /// Starts the capture on the video port. A camera that is not enabled
    /// cannot capture.
    pub open spec fn enable_capture_spec(self) -> (CameraStatus, Outcome) {
        if self.awaiting is None && !(self.state is Enabled) {
            (self, Outcome::Failed(VideoErrorKind::CaptureStart, MMAL_EINVAL))
        } else {
            self.started(
                Request::SetCapture(
                    PortRef::output_spec(ComponentKind::Camera, MMAL_CAMERA_VIDEO_PORT),
                ),
            )
        }
    }

    /// Starts to disable the video port. Nothing is to do unless a component
    /// exists and the port is enabled.
    pub open spec fn disable_output_port_spec(self) -> (CameraStatus, Outcome) {
        if self.awaiting is None && !(self.state.holds_handle_spec() && self.ports.video.is_enabled) {
            (self, Outcome::Finished)
        } else {
            self.started(
                Request::DisablePort(
                    PortRef::output_spec(ComponentKind::Camera, MMAL_CAMERA_VIDEO_PORT),
                ),
            )
        }
    }

    /// Takes the reply to the call in flight.
    ///
    /// The call takes its effect. After a destruction, the error that caused
    /// it is reported, or the creation that waited for it begins. A call
    /// that failed ends the operation: the initialisation is rolled back, a
    /// failed start of the capture is reported as it is. After any other call
    /// the next call of the initialisation follows, or the operation is over.
    pub open spec fn resume_spec(self, param: VideoParam, reply: Reply) -> (CameraStatus, Outcome) {
        match self.awaiting {
            None => (self, Outcome::Finished),
            Some(call) => {
                let next = self.absorbed(call, reply);
                if call is DestroyComponent {
                    match self.failure {
                        Some((kind, status)) => (next, Outcome::Failed(kind, status)),
                        None => if self.restart {
                            next.started(Request::CreateComponent(ComponentKind::Camera))
                        } else {
                            (next, Outcome::Finished)
                        },
                    }
                } else if !CameraStatus::call_succeeded(call, reply) {
                    if call is SetCapture {
                        (next, Outcome::Failed(VideoErrorKind::CaptureStart, reply.status_spec()))
                    } else {
                        next.rolled_back(CameraStatus::failure_kind(call), reply.status_spec())
                    }
                } else {
                    match next.following(param, call) {
                        Some(request) => next.started(request),
                        None => (next, Outcome::Finished),
                    }
                }
            },
        }
    }
}

/// The camera of a recording session.
#[derive(Debug)]
pub struct CameraComponent {
    param: VideoParam,
    status: CameraStatus,
}

impl View for CameraComponent {
    type V = CameraStatus;

    closed spec fn view(&self) -> CameraStatus {
        self.status
    }
}

impl CameraComponent {
    /// The parameters that the camera was made with.
    pub closed spec fn param_spec(&self) -> VideoParam {
        self.param
    }

    /// A camera for these parameters. Nothing exists on the hardware yet.
    pub fn new(param: VideoParam) -> (camera: CameraComponent)
        ensures
            camera@ == CameraStatus::new_spec(),
            camera.param_spec() == param,
    {
        let port = Port {
            format: VideoFormat {
                encoding: 0,
                encoding_variant: 0,
                bitrate: 0,
                width: 0,
                height: 0,
                crop_x: 0,
                crop_y: 0,
                crop_width: 0,
                crop_height: 0,
                frame_rate_num: 0,
                frame_rate_den: 0,
            },
            buffer_num: 0,
            buffer_size: 0,
            buffer_num_min: 0,
            buffer_num_recommended: 0,
            buffer_size_min: 0,
            buffer_size_recommended: 0,
            is_enabled: false,
        };
        CameraComponent {
            param,
            status: CameraStatus {
                state: ComponentState::Uninitialized,
                awaiting: None,
                failure: None,
                restart: false,
                ports: CameraPorts { preview: port, video: port, capture: port },
            },
        }
    }

    /// Where the component stands.
    pub fn state(&self) -> (state: ComponentState)
        ensures
            state == self@.state,
    {
        self.status.state
    }

    /// The call that is being made, if one is.
    pub fn awaiting(&self) -> (call: Option<Request>)
        ensures
            call == self@.awaiting,
    {
        self.status.awaiting
    }

    /// The output ports, as last read or committed.
    pub fn ports(&self) -> (ports: CameraPorts)
        ensures
            ports == self@.ports,
    {
        self.status.ports
    }

    /// Whether a component exists on the hardware.
    pub fn validate_component(&self) -> (exists: bool)
        ensures
            exists == self@.state.holds_handle_spec(),
    {
        self.status.state.holds_handle()
    }

    /// The configuration that the camera is given.
    pub fn set_component_config(&self) -> (config: CameraConfig)
        ensures
            config == camera_config_spec(self.param_spec()),
    {
        CameraConfig {
            max_stills_w: self.param.width,
            max_stills_h: self.param.height,
            stills_yuv422: 0,
            one_shot_stills: 0,
            max_preview_video_w: self.param.width,
            max_preview_video_h: self.param.height,
            num_preview_video_frames: 3,
            stills_capture_circular_buffer_height: 0,
            fast_preview_resume: 0,
            use_stc_timestamp: TimestampMode::ResetStc,
        }
    }

    /// What the given output port is set to before its format is committed.
    pub fn set_port_format(&self, port: Port) -> (settings: Port)
        ensures
            settings == camera_port_settings_spec(self.param_spec(), port),
    {
        Port {
            format: VideoFormat {
                encoding: MMAL_ENCODING_OPAQUE,
                encoding_variant: MMAL_ENCODING_I420,
                width: self.param.width,
                height: self.param.height,
                crop_x: 0,
                crop_y: 0,
                crop_width: crop_extent(self.param.width),
                crop_height: crop_extent(self.param.height),
                frame_rate_num: self.param.frame_rate,
                frame_rate_den: 1,
                ..port.format
            },
            buffer_num: if port.buffer_num < MIN_CAMERA_BUFFERS {
                MIN_CAMERA_BUFFERS
            } else {
                port.buffer_num
            },
            ..port
        }
    }

    /// The request to commit the format of the output port at `index`.
    fn commit_request(&self, index: usize) -> (call: Request)
        ensures
            call == commit_request_spec(self.param_spec(), self@.ports, index),
    {
        Request::CommitFormat {
            port: PortRef::output(ComponentKind::Camera, index),
            template: None,
            settings: self.set_port_format(self.status.ports.get(index)),
        }
    }

    /// The call after `call` in the order in which the ports get their
    /// formats and the component is brought up.
    fn set_all_port_formats(&self, call: Request) -> (next: Option<Request>)
        ensures
            next == self@.following(self.param_spec(), call),
    {
        match call {
            Request::CreateComponent(_) => Some(
                Request::EnablePort(PortRef::control(ComponentKind::Camera)),
            ),
            Request::EnablePort(_) => Some(Request::SetCameraConfig(self.set_component_config())),
            Request::SetCameraConfig(_) => Some(self.commit_request(MMAL_CAMERA_CAPTURE_PORT)),
            Request::CommitFormat { port, .. } => if port.index == MMAL_CAMERA_CAPTURE_PORT {
                Some(self.commit_request(MMAL_CAMERA_PREVIEW_PORT))
            } else if port.index == MMAL_CAMERA_PREVIEW_PORT {
                Some(self.commit_request(MMAL_CAMERA_VIDEO_PORT))
            } else {
                Some(Request::EnableComponent(ComponentKind::Camera))
            },
            _ => None,
        }
    }

    /// Whether the call succeeded, as far as the camera cares.
    fn call_succeeded(call: Request, reply: &Reply) -> (ok: bool)
        ensures
            ok == CameraStatus::call_succeeded(call, *reply),
    {
        match call {
            Request::CreateComponent(_) => match reply {
                Reply::Component { status, ports: Some(ports) } => *status == crate::mmal::MMAL_SUCCESS
                    && ports.output.len() >= CAMERA_OUTPUT_PORTS,
                _ => false,
            },
            Request::SetCameraConfig(_) => true,
            Request::DestroyComponent(_) => true,
            Request::DisableComponent(_) => true,
            Request::DisablePort(_) => true,
            _ => reply.succeeded(),
        }
    }

    /// The kind of error that the failure of this call stands for.
    fn failure_kind(call: Request) -> (kind: VideoErrorKind)
        ensures
            kind == CameraStatus::failure_kind(call),
    {
        match call {
            Request::CreateComponent(_) => VideoErrorKind::ComponentCreate,
            Request::EnablePort(_) => VideoErrorKind::ControlPortEnable,
            Request::CommitFormat { .. } => VideoErrorKind::FormatCommit,
            Request::SetCapture(_) => VideoErrorKind::CaptureStart,
            _ => VideoErrorKind::ComponentEnable,
        }
    }

    /// Takes in what `mmal_component_create` returned: the component, if one
    /// came, and its output ports, if it has all of them.
    fn create_component(&mut self, reply: &Reply)
        ensures
            final(self)@ == old(self)@.absorbed(
                Request::CreateComponent(ComponentKind::Camera),
                *reply,
            ),
            final(self).param_spec() == old(self).param_spec(),
    {
        self.status.awaiting = None;
        match reply {
            Reply::Component { status, ports: Some(ports) } => {
                self.status.state = ComponentState::Created;
                if *status == crate::mmal::MMAL_SUCCESS && ports.output.len() >= CAMERA_OUTPUT_PORTS {
                    self.status.ports = CameraPorts {
                        preview: ports.output[MMAL_CAMERA_PREVIEW_PORT],
                        video: ports.output[MMAL_CAMERA_VIDEO_PORT],
                        capture: ports.output[MMAL_CAMERA_CAPTURE_PORT],
                    };
                }
            },
            _ => {},
        }
    }

    /// Takes in that the component has been destroyed.
    fn destroy_component(&mut self)
        ensures
            final(self)@ == old(self)@.absorbed(
                Request::DestroyComponent(ComponentKind::Camera),
                Reply::Status(0),
            ),
            final(self).param_spec() == old(self).param_spec(),
    {
        self.status.awaiting = None;
        self.status.state = if self.status.failure.is_some() || self.status.restart {
            ComponentState::Uninitialized
        } else {
            ComponentState::Destroyed
        };
        self.status.failure = None;
        self.status.restart = false;
    }

    /// Takes in the effect of the call that was made.
    fn absorb(&mut self, call: Request, reply: &Reply)
        ensures
            final(self)@ == old(self)@.absorbed(call, *reply),
            final(self).param_spec() == old(self).param_spec(),
    {
        match call {
            Request::CreateComponent(_) => self.create_component(reply),
            Request::DestroyComponent(_) => self.destroy_component(),
            _ => {
                self.status.awaiting = None;
                let ok = reply.succeeded();
                match call {
                    Request::EnablePort(_) => if ok {
                        self.status.state = ComponentState::ControlEnabled;
                    },
                    Request::SetCameraConfig(_) => {
                        self.status.state = ComponentState::Configured;
                    },
                    Request::CommitFormat { port, settings, .. } => if ok {
                        self.status.ports = self.status.ports.with(port.index, settings);
                    },
                    Request::EnableComponent(_) => if ok {
                        self.status.state = ComponentState::Enabled;
                    },
                    Request::DisableComponent(_) => {
                        self.status.state = ComponentState::Disabled;
                    },
                    Request::DisablePort(_) => {
                        self.status.ports.video.is_enabled = false;
                    },
                    _ => {},
                }
            },
        }
    }

    /// Starts an operation with `call`, unless a call is in flight.
    fn start(&mut self, call: Request) -> (outcome: Outcome)
        ensures
            final(self)@ == old(self)@.started(call).0,
            outcome == old(self)@.started(call).1,
            final(self).param_spec() == old(self).param_spec(),
    {
        match self.status.awaiting {
            Some(pending) => Outcome::Call(pending),
            None => {
                self.status.awaiting = Some(call);
                Outcome::Call(call)
            },
        }
    }

    /// Gives up the initialisation after an error of this kind and status.
    fn roll_back(&mut self, kind: VideoErrorKind, status: u32) -> (outcome: Outcome)
        ensures
            final(self)@ == old(self)@.rolled_back(kind, status).0,
            outcome == old(self)@.rolled_back(kind, status).1,
            final(self).param_spec() == old(self).param_spec(),
    {
        if self.status.state.holds_handle() {
            let call = Request::DestroyComponent(ComponentKind::Camera);
            self.status.awaiting = Some(call);
            self.status.failure = Some((kind, status));
            Outcome::Call(call)
        } else {
            self.status.awaiting = None;
            Outcome::Failed(kind, status)
        }
    }

    /// Starts to bring the camera up: create the component, enable its
    /// control port, configure it, commit the formats of its three output
    /// ports, enable it. If a step fails, the component is destroyed again and
    /// the operation ends with the error of that step.
    pub fn init(&mut self) -> (step: Step<()>)
        ensures
            final(self)@ == old(self)@.init_spec().0,
            step.is(old(self)@.init_spec().1),
            final(self).param_spec() == old(self).param_spec(),
    {
        let outcome = if self.status.awaiting.is_none() && self.status.state.holds_handle() {
            self.status.restart = true;
            self.start(Request::DestroyComponent(ComponentKind::Camera))
        } else {
            self.start(Request::CreateComponent(ComponentKind::Camera))
        };
        Step::of(outcome)
    }

    /// Starts to disable the component. A component that is not enabled is
    /// left as it is, and the operation is over at once.
    pub fn disable(&mut self) -> (step: Step<()>)
        ensures
            final(self)@ == old(self)@.disable_spec().0,
            step.is(old(self)@.disable_spec().1),
            final(self).param_spec() == old(self).param_spec(),
    {
        let outcome = if self.status.awaiting.is_none() && !matches!(
            self.status.state,
            ComponentState::Enabled
        ) {
            Outcome::Finished
        } else {
            self.start(Request::DisableComponent(ComponentKind::Camera))
        };
        Step::of(outcome)
    }

    /// Starts to destroy the component. Where none exists, the operation is
    /// over at once.
    pub fn destroy(&mut self) -> (step: Step<()>)
        ensures
            final(self)@ == old(self)@.destroy_spec().0,
            step.is(old(self)@.destroy_spec().1),
            final(self).param_spec() == old(self).param_spec(),
    {
        let outcome = if self.status.awaiting.is_none() && !self.status.state.holds_handle() {
            Outcome::Finished
        } else {
            self.start(Request::DestroyComponent(ComponentKind::Camera))
        };
        Step::of(outcome)
    }

    /// Starts the capture on the video port.
    pub fn enable_capture(&mut self) -> (step: Step<()>)
        ensures
            final(self)@ == old(self)@.enable_capture_spec().0,
            step.is(old(self)@.enable_capture_spec().1),
            final(self).param_spec() == old(self).param_spec(),
    {
        let outcome = if self.status.awaiting.is_none() && !matches!(
            self.status.state,
            ComponentState::Enabled
        ) {
            Outcome::Failed(VideoErrorKind::CaptureStart, MMAL_EINVAL)
        } else {
            self.start(
                Request::SetCapture(PortRef::output(ComponentKind::Camera, MMAL_CAMERA_VIDEO_PORT)),
            )
        };
        Step::of(outcome)
    }

    /// Takes the reply to the call that was handed out last, and goes on with
    /// the operation.
    pub fn resume(&mut self, reply: &Reply) -> (step: Step<()>)
        ensures
            final(self)@ == old(self)@.resume_spec(old(self).param_spec(), *reply).0,
            step.is(old(self)@.resume_spec(old(self).param_spec(), *reply).1),
            final(self).param_spec() == old(self).param_spec(),
    {
        let outcome = match self.status.awaiting {
            None => Outcome::Finished,
            Some(call) => {
                let failure = self.status.failure;
                let restart = self.status.restart;
                self.absorb(call, reply);
                if matches!(call, Request::DestroyComponent(_)) {
                    match failure {
                        Some((kind, status)) => Outcome::Failed(kind, status),
                        None => if restart {
                            self.start(Request::CreateComponent(ComponentKind::Camera))
                        } else {
                            Outcome::Finished
                        },
                    }
                } else if !CameraComponent::call_succeeded(call, reply) {
                    if matches!(call, Request::SetCapture(_)) {
                        Outcome::Failed(VideoErrorKind::CaptureStart, reply.status())
                    } else {
                        self.roll_back(CameraComponent::failure_kind(call), reply.status())
                    }
                } else {
                    match self.set_all_port_formats(call) {
                        Some(request) => self.start(request),
                        None => Outcome::Finished,
                    }
                }
            },
        };
        Step::of(outcome)
    }

}

impl CameraStatus {
    /// Whether the call in flight goes with the state: a creation is under
    /// way only while no component exists, every other call only while one
    /// does; an error or a restart is pending only while the component is
    /// being destroyed; and only calls of the camera are in flight.
    pub open spec fn wf(self) -> bool {
        &&& match self.awaiting {
            None => true,
            Some(Request::CreateComponent(kind)) => kind == ComponentKind::Camera
                && !self.state.holds_handle_spec(),
            Some(Request::DestroyComponent(kind)) => kind == ComponentKind::Camera
                && self.state.holds_handle_spec(),
            Some(Request::EnablePort(_)) => self.state.holds_handle_spec(),
            Some(Request::SetCameraConfig(_)) => self.state.holds_handle_spec(),
            Some(Request::CommitFormat { .. }) => self.state.holds_handle_spec(),
            Some(Request::EnableComponent(_)) => self.state.holds_handle_spec(),
            Some(Request::DisableComponent(_)) => self.state.holds_handle_spec(),
            Some(Request::DisablePort(_)) => self.state.holds_handle_spec(),
            Some(Request::SetCapture(_)) => self.state.holds_handle_spec(),
            Some(_) => false,
        }
        &&& (self.failure is Some || self.restart) ==> self.awaiting matches Some(
            Request::DestroyComponent(_),
        )
    }

    /// The handles that the camera holds.
    pub open spec fn handles(self) -> Handles {
        Handles {
            cameras: if self.state.holds_handle_spec() {
                1
            } else {
                0
            },
            ..Handles::none()
        }
    }
}

/// A new camera is well formed and holds nothing.
pub proof fn lemma_new_camera()
    ensures
        CameraStatus::new_spec().wf(),
        CameraStatus::new_spec().handles() == Handles::none(),
{
}

/// Every operation keeps the camera well formed; starting one changes no
/// handle.
pub proof fn lemma_camera_operations_keep_wf(camera: CameraStatus)
    requires
        camera.wf(),
    ensures
        camera.init_spec().0.wf(),
        camera.disable_spec().0.wf(),
        camera.destroy_spec().0.wf(),
        camera.enable_capture_spec().0.wf(),
        camera.disable_output_port_spec().0.wf(),
        camera.init_spec().0.handles() == camera.handles(),
        camera.disable_spec().0.handles() == camera.handles(),
        camera.destroy_spec().0.handles() == camera.handles(),
        camera.enable_capture_spec().0.handles() == camera.handles(),
        camera.disable_output_port_spec().0.handles() == camera.handles(),
{
}

/// The camera's books follow the hardware: after every reply the camera is
/// well formed and holds exactly the handles that the call has left.
pub proof fn lemma_camera_follows_hardware(camera: CameraStatus, param: VideoParam, reply: Reply)
    requires
        camera.wf(),
        camera.awaiting is Some,
    ensures
        camera.resume_spec(param, reply).0.wf(),
        camera.resume_spec(param, reply).0.handles() == camera.handles().after(
            camera.awaiting->Some_0,
            reply,
        ),
{
}

/// An initialisation that fails leaves no component behind: whenever a step
/// ends in an error, other than that of a capture that would not start, the
/// camera holds no handle and no call is in flight.
pub proof fn lemma_camera_failure_leaves_nothing(
    camera: CameraStatus,
    param: VideoParam,
    reply: Reply,
)
    requires
        camera.wf(),
        !(camera.awaiting matches Some(Request::SetCapture(_))),
        camera.resume_spec(param, reply).1 is Failed,
    ensures
        camera.resume_spec(param, reply).0.handles() == Handles::none(),
        camera.resume_spec(param, reply).0.awaiting is None,
        camera.resume_spec(param, reply).0.state is Uninitialized
            || camera.resume_spec(param, reply).0.state is Destroyed,
{
}

/// To disable a camera that is not enabled, be it new, disabled or
/// destroyed, changes nothing and succeeds at once; and once a camera has
/// been disabled, it is not enabled.
pub proof fn lemma_camera_disable_is_idempotent(
    camera: CameraStatus,
    param: VideoParam,
    reply: Reply,
)
    requires
        camera.awaiting is None,
    ensures
        CameraStatus::new_spec().disable_spec() == (CameraStatus::new_spec(), Outcome::Finished),
        !(camera.state is Enabled) ==> camera.disable_spec() == (camera, Outcome::Finished),
        camera.state is Enabled ==> ({
            let disabled = camera.disable_spec().0.resume_spec(param, reply);
            &&& disabled.1 == Outcome::Finished
            &&& disabled.0.state is Disabled
            &&& disabled.0.disable_spec() == (disabled.0, Outcome::Finished)
        }),
{
}

/// When every call succeeds, the camera comes up: the initialisation makes
/// its seven calls in their order, commits to each port the settings made
/// from what the creation has read of it, and ends in success with the
/// component enabled.
pub proof fn lemma_camera_init_succeeds(param: VideoParam, created: Reply, done: Reply)
    requires
        created.succeeded_spec(),
        created.has_component_spec(),
        created.output_spec().len() >= CAMERA_OUTPUT_PORTS,
        done.succeeded_spec(),
    ensures
        ({
            let read = CameraPorts {
                preview: created.output_spec()[MMAL_CAMERA_PREVIEW_PORT as int],
                video: created.output_spec()[MMAL_CAMERA_VIDEO_PORT as int],
                capture: created.output_spec()[MMAL_CAMERA_CAPTURE_PORT as int],
            };
            let s0 = CameraStatus::new_spec().init_spec();
            let s1 = s0.0.resume_spec(param, created);
            let s2 = s1.0.resume_spec(param, done);
            let s3 = s2.0.resume_spec(param, done);
            let s4 = s3.0.resume_spec(param, done);
            let s5 = s4.0.resume_spec(param, done);
            let s6 = s5.0.resume_spec(param, done);
            let s7 = s6.0.resume_spec(param, done);
            &&& s0.1 == Outcome::Call(Request::CreateComponent(ComponentKind::Camera))
            &&& s1.1 == Outcome::Call(
                Request::EnablePort(PortRef::control_spec(ComponentKind::Camera)),
            )
            &&& s2.1 == Outcome::Call(Request::SetCameraConfig(camera_config_spec(param)))
            &&& s3.1 == Outcome::Call(commit_request_spec(param, read, MMAL_CAMERA_CAPTURE_PORT))
            &&& s4.1 == Outcome::Call(commit_request_spec(param, read, MMAL_CAMERA_PREVIEW_PORT))
            &&& s5.1 == Outcome::Call(commit_request_spec(param, read, MMAL_CAMERA_VIDEO_PORT))
            &&& s6.1 == Outcome::Call(Request::EnableComponent(ComponentKind::Camera))
            &&& s7.1 == Outcome::Finished
            &&& s7.0.state is Enabled
            &&& s7.0.awaiting is None
            &&& s7.0.ports == (CameraPorts {
                preview: camera_port_settings_spec(param, read.preview),
                video: camera_port_settings_spec(param, read.video),
                capture: camera_port_settings_spec(param, read.capture),
            })
        }),
{
}

/// A component that is of no use is not kept: when the creation brings a
/// component, but reports a failure or brings fewer than three output ports,
/// the component is destroyed at once, and the initialisation ends with the
/// error of the creation and the status that came with it. No component
/// exists then.
pub proof fn lemma_camera_unusable_component_is_destroyed(
    param: VideoParam,
    created: Reply,
    destroyed: Reply,
)
    requires
        created.has_component_spec(),
        !created.succeeded_spec() || created.output_spec().len() < CAMERA_OUTPUT_PORTS,
    ensures
        ({
            let s0 = CameraStatus::new_spec().init_spec();
            let s1 = s0.0.resume_spec(param, created);
            let s2 = s1.0.resume_spec(param, destroyed);
            &&& s0.1 == Outcome::Call(Request::CreateComponent(ComponentKind::Camera))
            &&& s1.1 == Outcome::Call(Request::DestroyComponent(ComponentKind::Camera))
            &&& s1.0.state is Created
            &&& s2.1 == Outcome::Failed(VideoErrorKind::ComponentCreate, created.status_spec())
            &&& s2.0.state is Uninitialized
            &&& s2.0.awaiting is None
            &&& s2.0.handles() == Handles::none()
        }),
{
}

impl VideoOutputPort for CameraComponent {
    /// The camera's video port.
    open spec fn output_port_spec(&self) -> PortRef {
        PortRef::output_spec(ComponentKind::Camera, MMAL_CAMERA_VIDEO_PORT)
    }

    /// Starts to disable the video port. Nothing is to do unless a component
    /// exists and the port is enabled.
    fn disable_output_port(&mut self) -> (step: Step<()>)
        ensures
            final(self)@ == old(self)@.disable_output_port_spec().0,
            step.is(old(self)@.disable_output_port_spec().1),
            final(self).param_spec() == old(self).param_spec(),
    {
        let outcome = if self.status.awaiting.is_none() && !(self.status.state.holds_handle()
            && self.status.ports.video.is_enabled) {
            Outcome::Finished
        } else {
            self.start(
                Request::DisablePort(PortRef::output(ComponentKind::Camera, MMAL_CAMERA_VIDEO_PORT)),
            )
        };
        Step::of(outcome)
    }

    fn raw_output_port(&self) -> (port: PortRef) {
        PortRef::output(ComponentKind::Camera, MMAL_CAMERA_VIDEO_PORT)
    }
}

} // verus!

//! The recorder: one session from the camera to the file.

use vstd::prelude::*;
use vstd::string::*;
use crate::camera_component::{CameraComponent, CameraStatus};
use crate::encoder_component::{encoder_input_spec, encoder_output_spec, EncoderComponent, EncoderView};
use crate::mmal::{
    ComponentKind, Outcome, PortRef, Reply, Request, Step, MMAL_CAMERA_VIDEO_PORT, MMAL_EINVAL,
};
use crate::video_conn::{ConnStatus, VideoConn};
use crate::video_error::{VideoError, VideoErrorKind};
use crate::video_output::output_processor::{OutputProcessor, ProcessorView, Taken, TakenView};
use crate::video_param::VideoParam;
use crate::video_res::VideoRes;
use crate::video_state::{SinkView, VideoState};

verus! {

/// What a recorder is doing.
#[derive(Clone, Copy, Debug, PartialEq, Eq, Structural)]
pub enum RecorderPhase {
    /// Nothing yet.
    Idle,
    /// Creating the output file.
    CreatingFile,
    /// Bringing up the camera.
    InitCamera,
    /// Bringing up the encoder and its pool.
    InitEncoder,
    /// Connecting the camera to the encoder.
    InitConn,
    /// Enabling the encoder's output port, with the callback.
    EnablingOutput,
    /// Sending the free buffers of the pool to the output port.
    Refilling,
    /// Starting the capture.
    StartingCapture,
    /// Taking records; waiting for the callback where there is none.
    Draining,
    /// Writing a record to the file.
    Writing,
    /// Disabling the encoder's output port.
    DisablingOutput,
    /// Flushing the file.
    Syncing,
    /// Destroying the connection.
    DestroyingConn,
    /// Disabling the encoder.
    DisablingEncoder,
    /// Disabling the camera.
    DisablingCamera,
    /// Destroying the pool and the encoder.
    DestroyingEncoder,
    /// Destroying the camera.
    DestroyingCamera,
    /// The session is over.
    Finished,
}

impl RecorderPhase {
    /// The place of the phase in the order of a session.
    pub open spec fn rank(self) -> nat {
        match self {
            RecorderPhase::Idle => 0,
            RecorderPhase::CreatingFile => 1,
            RecorderPhase::InitCamera => 2,
            RecorderPhase::InitEncoder => 3,
            RecorderPhase::InitConn => 4,
            RecorderPhase::EnablingOutput => 5,
            RecorderPhase::Refilling => 6,
            RecorderPhase::StartingCapture => 7,
            RecorderPhase::Draining => 8,
            RecorderPhase::Writing => 9,
            RecorderPhase::DisablingOutput => 10,
            RecorderPhase::Syncing => 11,
            RecorderPhase::DestroyingConn => 12,
            RecorderPhase::DisablingEncoder => 13,
            RecorderPhase::DisablingCamera => 14,
            RecorderPhase::DestroyingEncoder => 15,
            RecorderPhase::DestroyingCamera => 16,
            RecorderPhase::Finished => 17,
        }
    }

    /// The phase that follows when this one has succeeded. The session is
    /// set up in the order file, camera, encoder, connection, output port,
    /// buffers, capture; it is taken down in the order output port, file,
    /// connection, then both components disabled, then both destroyed.
    pub open spec fn next_spec(self) -> RecorderPhase {
        match self {
            RecorderPhase::Idle => RecorderPhase::CreatingFile,
            RecorderPhase::CreatingFile => RecorderPhase::InitCamera,
            RecorderPhase::InitCamera => RecorderPhase::InitEncoder,
            RecorderPhase::InitEncoder => RecorderPhase::InitConn,
            RecorderPhase::InitConn => RecorderPhase::EnablingOutput,
            RecorderPhase::EnablingOutput => RecorderPhase::Refilling,
            RecorderPhase::Refilling => RecorderPhase::StartingCapture,
            RecorderPhase::StartingCapture => RecorderPhase::Draining,
            RecorderPhase::Draining => RecorderPhase::DisablingOutput,
            RecorderPhase::Writing => RecorderPhase::DisablingOutput,
            RecorderPhase::DisablingOutput => RecorderPhase::Syncing,
            RecorderPhase::Syncing => RecorderPhase::DestroyingConn,
            RecorderPhase::DestroyingConn => RecorderPhase::DisablingEncoder,
            RecorderPhase::DisablingEncoder => RecorderPhase::DisablingCamera,
            RecorderPhase::DisablingCamera => RecorderPhase::DestroyingEncoder,
            RecorderPhase::DestroyingEncoder => RecorderPhase::DestroyingCamera,
            RecorderPhase::DestroyingCamera => RecorderPhase::Finished,
            RecorderPhase::Finished => RecorderPhase::Finished,
        }
    }

    /// Whether the phase is part of taking the session down.
    pub open spec fn is_teardown_spec(self) -> bool {
        self.rank() >= RecorderPhase::DisablingOutput.rank()
    }

    /// The phase that follows when this one has succeeded.
    #[verifier::when_used_as_spec(next_spec)]
    pub fn next(self) -> (phase: RecorderPhase)
        ensures
            phase == self.next_spec(),
            self != RecorderPhase::Finished ==> phase.rank() > self.rank(),
    {
        match self {
            RecorderPhase::Idle => RecorderPhase::CreatingFile,
            RecorderPhase::CreatingFile => RecorderPhase::InitCamera,
            RecorderPhase::InitCamera => RecorderPhase::InitEncoder,
            RecorderPhase::InitEncoder => RecorderPhase::InitConn,
            RecorderPhase::InitConn => RecorderPhase::EnablingOutput,
            RecorderPhase::EnablingOutput => RecorderPhase::Refilling,
            RecorderPhase::Refilling => RecorderPhase::StartingCapture,
            RecorderPhase::StartingCapture => RecorderPhase::Draining,
            RecorderPhase::Draining => RecorderPhase::DisablingOutput,
            RecorderPhase::Writing => RecorderPhase::DisablingOutput,
            RecorderPhase::DisablingOutput => RecorderPhase::Syncing,
            RecorderPhase::Syncing => RecorderPhase::DestroyingConn,
            RecorderPhase::DestroyingConn => RecorderPhase::DisablingEncoder,
            RecorderPhase::DisablingEncoder => RecorderPhase::DisablingCamera,
            RecorderPhase::DisablingCamera => RecorderPhase::DestroyingEncoder,
            RecorderPhase::DestroyingEncoder => RecorderPhase::DestroyingCamera,
            RecorderPhase::DestroyingCamera => RecorderPhase::Finished,
            RecorderPhase::Finished => RecorderPhase::Finished,
        }
    }

    /// Whether the phase is part of taking the session down.
    #[verifier::when_used_as_spec(is_teardown_spec)]
    pub fn is_teardown(self) -> (teardown: bool)
        ensures
            teardown == self.is_teardown_spec(),
    {
        match self {
            RecorderPhase::DisablingOutput => true,
            RecorderPhase::Syncing => true,
            RecorderPhase::DestroyingConn => true,
            RecorderPhase::DisablingEncoder => true,
            RecorderPhase::DisablingCamera => true,
            RecorderPhase::DestroyingEncoder => true,
            RecorderPhase::DestroyingCamera => true,
            RecorderPhase::Finished => true,
            _ => false,
        }
    }
}

/// A recorder as a value.
pub struct RecorderView {
    /// What the recorder is doing.
    pub phase: RecorderPhase,
    /// The call that is being made, if one is.
    pub awaiting: Option<Request>,
    /// The first error of the session, if there was one.
    pub failure: Option<(VideoErrorKind, u32)>,
    /// What the file system said when the output file was last created or
    /// written, before any error of the session.
    pub detail: Seq<char>,
    /// The parameters of the session.
    pub param: VideoParam,
    /// The parameters that the camera works with.
    pub camera_param: VideoParam,
    /// The parameters that the encoder works with.
    pub encoder_param: VideoParam,
    /// The parameters that the output file is made with.
    pub state_param: VideoParam,
    pub camera: CameraStatus,
    pub encoder: EncoderView,
    pub conn: ConnStatus,
    pub processor: ProcessorView,
    pub state: SinkView,
}

/// The camera's video port, which the connection starts from.
pub open spec fn camera_video_spec() -> PortRef {
    PortRef::output_spec(ComponentKind::Camera, MMAL_CAMERA_VIDEO_PORT)
}

impl RecorderView {
    /// A recorder for these parameters that has done nothing yet.
    pub open spec fn new_spec(param: VideoParam) -> RecorderView {
        RecorderView {
            phase: RecorderPhase::Idle,
            awaiting: None,
            failure: None,
            detail: Seq::empty(),
            param,
            camera_param: param,
            encoder_param: param,
            state_param: param,
            camera: CameraStatus::new_spec(),
            encoder: EncoderView::new_spec(),
            conn: ConnStatus::new_spec(),
            processor: ProcessorView::new_spec(),
            state: SinkView::new_spec(),
        }
    }

    /// How a session that is over has ended.
    pub open spec fn result(self) -> Outcome {
        match self.failure {
            Some((kind, status)) => Outcome::Failed(kind, status),
            None => Outcome::Finished,
        }
    }

    /// The recorder once this error has come up. The first error stays.
    pub open spec fn failed(self, kind: VideoErrorKind, status: u32) -> RecorderView {
        if self.failure is Some {
            self
        } else {
            RecorderView { failure: Some((kind, status)), ..self }
        }
    }

    /// Starts the work of a phase: the part of the session that the phase
    /// stands for begins its operation. To drain is to take the next record:
    /// a record with data is written to the file, which is the phase of
    /// writing; the end of the stream ends the phase; without a record the
    /// recorder waits for the callback. Gives the phase that the recorder is
    /// in then, and how the step ends.
    pub open spec fn begun(self, phase: RecorderPhase) -> (RecorderView, RecorderPhase, Outcome) {
        match phase {
            RecorderPhase::Idle => (self, phase, Outcome::Finished),
            RecorderPhase::CreatingFile => {
                let (state, outcome) = self.state.init_spec(self.state_param.output_file_path@);
                (RecorderView { state, ..self }, phase, outcome)
            },
            RecorderPhase::InitCamera => {
                let (camera, outcome) = self.camera.init_spec();
                (RecorderView { camera, ..self }, phase, outcome)
            },
            RecorderPhase::InitEncoder => {
                let (encoder, outcome) = self.encoder.init_spec();
                (RecorderView { encoder, ..self }, phase, outcome)
            },
            RecorderPhase::InitConn => {
                let (conn, outcome) = self.conn.init_spec(
                    encoder_input_spec(),
                    camera_video_spec(),
                );
                (RecorderView { conn, ..self }, phase, outcome)
            },
            RecorderPhase::EnablingOutput => {
                let (processor, outcome) = self.processor.init_spec(
                    encoder_output_spec(),
                    self.encoder.pool,
                );
                (RecorderView { processor, ..self }, phase, outcome)
            },
            RecorderPhase::Refilling => {
                let (encoder, outcome) = self.encoder.send_queue_buffers_spec();
                (RecorderView { encoder, ..self }, phase, outcome)
            },
            RecorderPhase::StartingCapture => {
                let (camera, outcome) = self.camera.enable_capture_spec();
                (RecorderView { camera, ..self }, phase, outcome)
            },
            RecorderPhase::Draining => {
                let (processor, taken) = self.processor.take_spec();
                let rest = RecorderView { processor, ..self };
                match taken {
                    TakenView::Record(bytes) => {
                        let (state, outcome) = self.state.write_output_file_spec(bytes);
                        (RecorderView { state, ..rest }, RecorderPhase::Writing, outcome)
                    },
                    TakenView::EndOfStream => (rest, phase, Outcome::Finished),
                    TakenView::Pending => (rest, phase, Outcome::Call(Request::AwaitCallback)),
                    TakenView::Failed(kind, status) => (rest, phase, Outcome::Failed(kind, status)),
                }
            },
            RecorderPhase::Writing => (self, phase, Outcome::Call(Request::AwaitCallback)),
            RecorderPhase::DisablingOutput => {
                let (processor, outcome) = self.processor.disable_spec(encoder_output_spec());
                (RecorderView { processor, ..self }, phase, outcome)
            },
            RecorderPhase::Syncing => {
                let (state, outcome) = self.state.sync_output_file_spec();
                (RecorderView { state, ..self }, phase, outcome)
            },
            RecorderPhase::DestroyingConn => {
                let (conn, outcome) = self.conn.destroy_spec();
                (RecorderView { conn, ..self }, phase, outcome)
            },
            RecorderPhase::DisablingEncoder => {
                let (encoder, outcome) = self.encoder.disable_spec();
                (RecorderView { encoder, ..self }, phase, outcome)
            },
            RecorderPhase::DisablingCamera => {
                let (camera, outcome) = self.camera.disable_spec();
                (RecorderView { camera, ..self }, phase, outcome)
            },
            RecorderPhase::DestroyingEncoder => {
                let (encoder, outcome) = self.encoder.destroy_spec();
                (RecorderView { encoder, ..self }, phase, outcome)
            },
            RecorderPhase::DestroyingCamera => {
                let (camera, outcome) = self.camera.destroy_spec();
                (RecorderView { camera, ..self }, phase, outcome)
            },
            RecorderPhase::Finished => (self, phase, Outcome::Finished),
        }
    }

    /// Hands the reply to the part of the session that the phase belongs to.
    pub open spec fn replied(self, reply: Reply) -> (RecorderView, Outcome) {
        match self.phase {
            RecorderPhase::CreatingFile | RecorderPhase::Writing | RecorderPhase::Syncing => {
                let (state, outcome) = self.state.resume_spec(reply);
                (RecorderView { state, ..self }, outcome)
            },
            RecorderPhase::InitCamera
            | RecorderPhase::StartingCapture
            | RecorderPhase::DisablingCamera
            | RecorderPhase::DestroyingCamera => {
                let (camera, outcome) = self.camera.resume_spec(self.camera_param, reply);
                (RecorderView { camera, ..self }, outcome)
            },
            RecorderPhase::InitEncoder
            | RecorderPhase::Refilling
            | RecorderPhase::DisablingEncoder
            | RecorderPhase::DestroyingEncoder => {
                let (encoder, outcome) = self.encoder.resume_spec(self.encoder_param, reply);
                (RecorderView { encoder, ..self }, outcome)
            },
            RecorderPhase::InitConn | RecorderPhase::DestroyingConn => {
                let (conn, outcome) = self.conn.resume_spec(reply);
                (RecorderView { conn, ..self }, outcome)
            },
            RecorderPhase::EnablingOutput | RecorderPhase::DisablingOutput => {
                let (processor, outcome) = self.processor.resume_spec(reply);
                (RecorderView { processor, ..self }, outcome)
            },
            RecorderPhase::Idle | RecorderPhase::Draining | RecorderPhase::Finished => (
                self,
                Outcome::Finished,
            ),
        }
    }

    /// Goes on after the work of `phase` has come to `outcome`.
    ///
    /// A call is handed out, and the recorder stays in the phase. After a
    /// success the next phase is entered; after the last phase the session
    /// is over and ends as its first error says, or in success. An error
    /// before the teardown is noted, and the teardown is entered at its
    /// beginning; during the teardown an error changes nothing.
    pub open spec fn settled(self, phase: RecorderPhase, outcome: Outcome) -> (
        RecorderView,
        Outcome,
    )
        decreases 18 - phase.rank(), 0nat,
    {
        match outcome {
            Outcome::Call(call) => (
                RecorderView { phase, awaiting: Some(call), ..self },
                Outcome::Call(call),
            ),
            Outcome::Failed(kind, status) if !phase.is_teardown_spec() => self.failed(
                kind,
                status,
            ).entered(RecorderPhase::DisablingOutput),
            _ => if phase.rank() >= RecorderPhase::DestroyingCamera.rank() {
                (
                    RecorderView { phase: RecorderPhase::Finished, awaiting: None, ..self },
                    self.result(),
                )
            } else {
                self.entered(phase.next_spec())
            },
        }
    }

    /// Enters a phase: its work begins, and the recorder goes on from how
    /// that ends.
    pub open spec fn entered(self, phase: RecorderPhase) -> (RecorderView, Outcome)
        decreases 18 - phase.rank(), 1nat,
    {
        let (begun, now, outcome) = self.begun(phase);
        if now.rank() >= phase.rank() {
            begun.settled(now, outcome)
        } else {
            (self, Outcome::Finished)
        }
    }

    /// Starts the session. A recorder runs one session: while it is under
    /// way the call in flight is handed out again, and once it is over its
    /// result.
    pub open spec fn run_spec(self) -> (RecorderView, Outcome) {
        match self.phase {
            RecorderPhase::Idle => self.entered(RecorderPhase::CreatingFile),
            RecorderPhase::Finished => (self, self.result()),
            _ => match self.awaiting {
                Some(call) => (self, Outcome::Call(call)),
                None => (self, Outcome::Call(Request::AwaitCallback)),
            },
        }
    }

    /// The recorder once the reply has come: no call is in flight. What the
    /// reply says of a failure is kept if the call was to create or to write
    /// the output file and the session has not failed before: it belongs to
    /// the error that this reply may end the session with.
    pub open spec fn hearing(self, reply: Reply) -> RecorderView {
        RecorderView {
            awaiting: None,
            detail: if self.failure is None && (self.phase is CreatingFile
                || self.phase is Writing) {
                reply.detail_spec()
            } else {
                self.detail
            },
            ..self
        }
    }

    /// Takes the reply to the call in flight.
    ///
    /// While the recorder drains, it takes the next record. After a record
    /// has been written, it drains again. In every other phase the reply
    /// goes to the part of the session that made the call, and the recorder
    /// goes on from how that ends. Without a session there is nothing to go
    /// on with; after the session the result stays.
    pub open spec fn resume_spec(self, reply: Reply) -> (RecorderView, Outcome) {
        let rest = self.hearing(reply);
        match self.phase {
            RecorderPhase::Idle => (
                self,
                Outcome::Failed(VideoErrorKind::ChannelReceive, MMAL_EINVAL),
            ),
            RecorderPhase::Finished => (self, self.result()),
            RecorderPhase::Draining => rest.entered(RecorderPhase::Draining),
            RecorderPhase::Writing => {
                let (written, outcome) = rest.replied(reply);
                if outcome is Finished {
                    written.entered(RecorderPhase::Draining)
                } else {
                    written.settled(RecorderPhase::Writing, outcome)
                }
            },
            phase => {
                let (replied, outcome) = rest.replied(reply);
                replied.settled(phase, outcome)
            },
        }
    }

    /// What the output callback does when the hardware hands it a buffer.
    /// Without a pool no buffer can be the pool's.
    pub open spec fn output_callback_spec(self, port_enabled: bool, buffer: u32, payload: Seq<u8>) -> (
        RecorderView,
        Outcome,
    ) {
        match self.encoder.pool {
            None => (self, Outcome::Failed(VideoErrorKind::StrayBuffer, MMAL_EINVAL)),
            Some(pool) => {
                let after = self.processor.callback_spec(pool, port_enabled, buffer, payload);
                (
                    RecorderView {
                        processor: after.0,
                        encoder: EncoderView { pool: Some(after.1), ..self.encoder },
                        ..self
                    },
                    after.2,
                )
            },
        }
    }

    /// What the output callback does when the port has answered.
    pub open spec fn output_callback_resume_spec(self, reply: Reply) -> (RecorderView, Outcome) {
        match self.encoder.pool {
            None => (self, Outcome::Finished),
            Some(pool) => {
                let after = self.processor.callback_resume_spec(pool, reply);
                (
                    RecorderView {
                        processor: after.0,
                        encoder: EncoderView { pool: Some(after.1), ..self.encoder },
                        ..self
                    },
                    after.2,
                )
            },
        }
    }
}

impl RecorderPhase {
    /// The place of the phase in the order of a session.
    pub fn place(self) -> (rank: u8)
        ensures
            rank == self.rank(),
    {
        match self {
            RecorderPhase::Idle => 0,
            RecorderPhase::CreatingFile => 1,
            RecorderPhase::InitCamera => 2,
            RecorderPhase::InitEncoder => 3,
            RecorderPhase::InitConn => 4,
            RecorderPhase::EnablingOutput => 5,
            RecorderPhase::Refilling => 6,
            RecorderPhase::StartingCapture => 7,
            RecorderPhase::Draining => 8,
            RecorderPhase::Writing => 9,
            RecorderPhase::DisablingOutput => 10,
            RecorderPhase::Syncing => 11,
            RecorderPhase::DestroyingConn => 12,
            RecorderPhase::DisablingEncoder => 13,
            RecorderPhase::DisablingCamera => 14,
            RecorderPhase::DestroyingEncoder => 15,
            RecorderPhase::DestroyingCamera => 16,
            RecorderPhase::Finished => 17,
        }
    }
}

/// Records one video: brings up the camera and the encoder, connects them,
/// carries what the encoder puts out to the output file until the stream
/// ends, and takes everything down again.
pub struct Recorder {
    camera_com: CameraComponent,
    encoder_com: EncoderComponent,
    encoder_conn: VideoConn,
    output_processor: OutputProcessor,
    param: VideoParam,
    state: VideoState,
    phase: RecorderPhase,
    awaiting: Option<Request>,
    failure: Option<(VideoErrorKind, u32)>,
    detail: String,
}

impl View for Recorder {
    type V = RecorderView;

    closed spec fn view(&self) -> RecorderView {
        RecorderView {
            phase: self.phase,
            awaiting: self.awaiting,
            failure: self.failure,
            detail: self.detail@,
            param: self.param,
            camera_param: self.camera_com.param_spec(),
            encoder_param: self.encoder_com.param_spec(),
            state_param: self.state.param_spec(),
            camera: self.camera_com@,
            encoder: self.encoder_com@,
            conn: self.encoder_conn@,
            processor: self.output_processor@,
            state: self.state@,
        }
    }
}

impl Recorder {
    /// A recorder for these parameters, or for the default ones.
    pub fn new(param_opt: Option<VideoParam>) -> (recorder: Recorder)
        ensures
            param_opt matches Some(param) ==> recorder@ == RecorderView::new_spec(param),
            param_opt is None ==> exists|seconds: u64| #[trigger]
                recorder@.param.is_default_at(seconds) && recorder@ == RecorderView::new_spec(
                    recorder@.param,
                ),
    {
        let param = match param_opt {
            Some(value) => value,
            None => VideoParam::default(),
        };
        assert(param_opt is None ==> exists|seconds: u64| param.is_default_at(seconds));
        let recorder = Recorder {
            state: VideoState::new(param.duplicate()),
            camera_com: CameraComponent::new(param.duplicate()),
            encoder_com: EncoderComponent::new(param.duplicate()),
            encoder_conn: VideoConn::new(),
            output_processor: OutputProcessor::new(),
            param,
            phase: RecorderPhase::Idle,
            awaiting: None,
            failure: None,
            detail: String::new(),
        };
        assert(recorder@ == RecorderView::new_spec(recorder@.param));
        assert(recorder@.param == param);
        recorder
    }

    /// What the recorder is doing.
    pub fn phase(&self) -> (phase: RecorderPhase)
        ensures
            phase == self@.phase,
    {
        self.phase
    }

    /// The call that is being made, if one is.
    pub fn awaiting(&self) -> (call: Option<Request>)
        ensures
            call == self@.awaiting,
    {
        self.awaiting
    }

    /// The path of the output file.
    pub fn output_file_path(&self) -> (path: &String)
        ensures
            *path == self@.param.output_file_path,
    {
        &self.param.output_file_path
    }

    /// The bytes to append to the output file, while a write is under way.
    pub fn pending_output(&self) -> (bytes: Option<&[u8]>)
        ensures
            bytes is Some == self@.state.pending is Some,
            bytes matches Some(b) ==> Some(b@) == self@.state.pending,
    {
        self.state.pending_output()
    }

    /// Whether the recorder can go on draining without waiting: the callback
    /// has passed on something that has not been taken, or has failed.
    pub fn has_output(&self) -> (ready: bool)
        ensures
            ready == !(self@.processor.take_spec().1 is Pending),
    {
        self.output_processor.has_output()
    }

    /// How the session has ended, once it is over.
    fn result(&self) -> (outcome: Outcome)
        ensures
            outcome == self@.result(),
    {
        match self.failure {
            Some((kind, status)) => Outcome::Failed(kind, status),
            None => Outcome::Finished,
        }
    }

    /// Takes note of an error. The first error stays.
    fn fail(&mut self, kind: VideoErrorKind, status: u32)
        ensures
            final(self)@ == old(self)@.failed(kind, status),
    {
        if self.failure.is_none() {
            self.failure = Some((kind, status));
        }
    }

    /// Takes the next record and starts to write it to the file.
    fn write_output(&mut self) -> (begun: (RecorderPhase, Outcome))
        ensures
            (final(self)@, begun.0, begun.1) == old(self)@.begun(RecorderPhase::Draining),
            begun.0.rank() >= RecorderPhase::Draining.rank(),
    {
        match self.output_processor.take() {
            Taken::Record(buffer) => (RecorderPhase::Writing, self.state.write_output_file(buffer).outcome()),
            Taken::EndOfStream => (RecorderPhase::Draining, Outcome::Finished),
            Taken::Pending => (RecorderPhase::Draining, Outcome::Call(Request::AwaitCallback)),
            Taken::Failed(kind, status) => (RecorderPhase::Draining, Outcome::Failed(kind, status)),
        }
    }

    /// Starts the work of a phase.
    fn begin(&mut self, phase: RecorderPhase) -> (begun: (RecorderPhase, Outcome))
        ensures
            (final(self)@, begun.0, begun.1) == old(self)@.begun(phase),
            begun.0.rank() >= phase.rank(),
    {
        match phase {
            RecorderPhase::Idle => (phase, Outcome::Finished),
            RecorderPhase::CreatingFile => (phase, self.state.init().outcome()),
            RecorderPhase::InitCamera => (phase, self.camera_com.init().outcome()),
            RecorderPhase::InitEncoder => (phase, self.encoder_com.init().outcome()),
            RecorderPhase::InitConn => (
                phase,
                self.encoder_conn.init(&self.encoder_com, &self.camera_com).outcome(),
            ),
            RecorderPhase::EnablingOutput => (
                phase,
                self.output_processor.init(&self.encoder_com, &self.encoder_com).outcome(),
            ),
            RecorderPhase::Refilling => (phase, self.encoder_com.send_queue_buffers().outcome()),
            RecorderPhase::StartingCapture => (phase, self.camera_com.enable_capture().outcome()),
            RecorderPhase::Draining => self.write_output(),
            RecorderPhase::Writing => (phase, Outcome::Call(Request::AwaitCallback)),
            RecorderPhase::DisablingOutput => (
                phase,
                self.output_processor.disable(&self.encoder_com).outcome(),
            ),
            RecorderPhase::Syncing => (phase, self.state.sync_output_file().outcome()),
            RecorderPhase::DestroyingConn => (phase, self.encoder_conn.destroy().outcome()),
            RecorderPhase::DisablingEncoder => (phase, self.encoder_com.disable().outcome()),
            RecorderPhase::DisablingCamera => (phase, self.camera_com.disable().outcome()),
            RecorderPhase::DestroyingEncoder => (phase, self.encoder_com.destroy().outcome()),
            RecorderPhase::DestroyingCamera => (phase, self.camera_com.destroy().outcome()),
            RecorderPhase::Finished => (phase, Outcome::Finished),
        }
    }

    /// Hands the reply to the part of the session that the phase belongs to.
    fn reply(&mut self, reply: &Reply) -> (outcome: Outcome)
        ensures
            final(self)@ == old(self)@.replied(*reply).0,
            outcome == old(self)@.replied(*reply).1,
    {
        match self.phase {
            RecorderPhase::CreatingFile | RecorderPhase::Writing | RecorderPhase::Syncing => {
                self.state.resume(reply).outcome()
            },
            RecorderPhase::InitCamera
            | RecorderPhase::StartingCapture
            | RecorderPhase::DisablingCamera
            | RecorderPhase::DestroyingCamera => self.camera_com.resume(reply).outcome(),
            RecorderPhase::InitEncoder
            | RecorderPhase::Refilling
            | RecorderPhase::DisablingEncoder
            | RecorderPhase::DestroyingEncoder => self.encoder_com.resume(reply).outcome(),
            RecorderPhase::InitConn | RecorderPhase::DestroyingConn => self.encoder_conn.resume(reply).outcome(),
            RecorderPhase::EnablingOutput | RecorderPhase::DisablingOutput => {
                self.output_processor.resume(reply).outcome()
            },
            RecorderPhase::Idle | RecorderPhase::Draining | RecorderPhase::Finished => {
                Outcome::Finished
            },
        }
    }

    /// Enters a phase, and every phase after it whose work is done at once.
    fn enter(&mut self, start: RecorderPhase) -> (outcome: Outcome)
        ensures
            final(self)@ == old(self)@.entered(start).0,
            outcome == old(self)@.entered(start).1,
    {
        let mut phase = start;
        loop
            invariant
                self@.entered(phase) == old(self)@.entered(start),
            decreases 18 - phase.rank(),
        {
            let (now, outcome) = self.begin(phase);
            match self.settle(now, outcome) {
                Ok(next) => {
                    phase = next;
                },
                Err(outcome) => {
                    return outcome;
                },
            }
        }
    }

    /// Goes on after the work of `phase` has come to `outcome`: either the
    /// step is over, or a phase is to be entered.
    fn settle(&mut self, phase: RecorderPhase, outcome: Outcome) -> (next: Result<
        RecorderPhase,
        Outcome,
    >)
        ensures
            match next {
                Ok(next) => next.rank() > phase.rank() && final(self)@.entered(next) == old(
                    self,
                )@.settled(phase, outcome),
                Err(end) => (final(self)@, end) == old(self)@.settled(phase, outcome),
            },
    {
        match outcome {
            Outcome::Call(call) => {
                self.phase = phase;
                self.awaiting = Some(call);
                Err(outcome)
            },
            Outcome::Failed(kind, status) if !phase.is_teardown() => {
                self.fail(kind, status);
                Ok(RecorderPhase::DisablingOutput)
            },
            _ => if phase.place() >= 16 {
                let result = self.result();
                self.phase = RecorderPhase::Finished;
                self.awaiting = None;
                Err(result)
            } else {
                Ok(phase.next())
            },
        }
    }

    /// Starts the session: the output file is created, the camera and the
    /// encoder are brought up and connected, the output is set up, the
    /// buffers are sent to the encoder, and the capture starts. Then the
    /// records are written to the file as they come, until the end of the
    /// stream. At last everything is taken down. An error at any point has
    /// everything taken down at once, and is the result of the session.
    pub fn run(&mut self) -> (step: Step<VideoRes>)
        ensures
            final(self)@ == old(self)@.run_spec().0,
            final(self).ends(step, old(self)@.run_spec().1),
    {
        let outcome = match self.phase {
            RecorderPhase::Idle => self.enter(RecorderPhase::CreatingFile),
            RecorderPhase::Finished => self.result(),
            _ => match self.awaiting {
                Some(call) => Outcome::Call(call),
                None => Outcome::Call(Request::AwaitCallback),
            },
        };
        self.step(outcome)
    }

    /// Takes in that the reply has come, and what it says of a failure of
    /// the output file.
    fn hear(&mut self, reply: &Reply)
        ensures
            final(self)@ == old(self)@.hearing(*reply),
    {
        self.awaiting = None;
        if self.failure.is_none() && matches!(
            self.phase,
            RecorderPhase::CreatingFile | RecorderPhase::Writing
        ) {
            self.detail = String::from_str(reply.detail());
        }
    }

    /// Takes the reply to the call that was handed out last, and goes on with
    /// the session.
    pub fn resume(&mut self, reply: &Reply) -> (step: Step<VideoRes>)
        ensures
            final(self)@ == old(self)@.resume_spec(*reply).0,
            final(self).ends(step, old(self)@.resume_spec(*reply).1),
    {
        let outcome = match self.phase {
            RecorderPhase::Idle => Outcome::Failed(VideoErrorKind::ChannelReceive, MMAL_EINVAL),
            RecorderPhase::Finished => self.result(),
            RecorderPhase::Draining => {
                self.hear(reply);
                self.enter(RecorderPhase::Draining)
            },
            RecorderPhase::Writing => {
                self.hear(reply);
                let outcome = self.reply(reply);
                match outcome {
                    Outcome::Finished => self.enter(RecorderPhase::Draining),
                    _ => self.finish(RecorderPhase::Writing, outcome),
                }
            },
            phase => {
                self.hear(reply);
                let outcome = self.reply(reply);
                self.finish(phase, outcome)
            },
        };
        self.step(outcome)
    }

    /// Goes on after the work of `phase` has come to `outcome`, through
    /// every phase whose work is done at once.
    fn finish(&mut self, phase: RecorderPhase, outcome: Outcome) -> (end: Outcome)
        ensures
            final(self)@ == old(self)@.settled(phase, outcome).0,
            end == old(self)@.settled(phase, outcome).1,
    {
        match self.settle(phase, outcome) {
            Ok(next) => self.enter(next),
            Err(end) => end,
        }
    }

    /// The output callback of the session: what to do when the hardware
    /// hands back the buffer with the number `buffer`, filled with
    /// `payload`, while the output port is enabled or not. See
    /// [`crate::video_output::output_processor::output_callback`].
    pub fn output_callback(&mut self, port_enabled: bool, buffer: u32, payload: &[u8]) -> (step:
        Step<()>)
        ensures
            final(self)@ == old(self)@.output_callback_spec(port_enabled, buffer, payload@).0,
            step.is(old(self)@.output_callback_spec(port_enabled, buffer, payload@).1),
    {
        match self.encoder_com.take_pool() {
            Some(mut pool) => {
                let step = self.output_processor.callback(&mut pool, port_enabled, buffer, payload);
                self.encoder_com.put_pool(pool);
                step
            },
            None => Step::of(Outcome::Failed(VideoErrorKind::StrayBuffer, MMAL_EINVAL)),
        }
    }

    /// The second half of the output callback: what to do when the port has
    /// answered the call that the first half handed out.
    pub fn output_callback_resume(&mut self, reply: &Reply) -> (step: Step<()>)
        ensures
            final(self)@ == old(self)@.output_callback_resume_spec(*reply).0,
            step.is(old(self)@.output_callback_resume_spec(*reply).1),
    {
        match self.encoder_com.take_pool() {
            Some(mut pool) => {
                let step = self.output_processor.callback_resume(&mut pool, reply);
                self.encoder_com.put_pool(pool);
                step
            },
            None => Step::of(Outcome::Finished),
        }
    }

    /// Whether `step` ends as `outcome` says: a session that succeeded hands
    /// back the path of the output file, an error has the message that
    /// belongs to its kind, and if it is about the output file, it names the
    /// file and gives what the file system said.
    pub open spec fn ends(&self, step: Step<VideoRes>, outcome: Outcome) -> bool {
        match outcome {
            Outcome::Call(request) => step matches Step::Call(call) && call == request,
            Outcome::Finished => step matches Step::Done(Ok(res)) && res.output_file_path
                == self@.param.output_file_path,
            Outcome::Failed(kind, status) => step matches Step::Done(Err(error)) && error.is_at(
                kind,
                status,
                self@.param.output_file_path@,
                self@.detail,
            ),
        }
    }

    /// The step that ends as `outcome` says.
    fn step(&self, outcome: Outcome) -> (step: Step<VideoRes>)
        ensures
            self.ends(step, outcome),
    {
        match outcome {
            Outcome::Call(request) => Step::Call(request),
            Outcome::Finished => Step::Done(
                Ok(VideoRes { output_file_path: self.param.output_file_path.clone() }),
            ),
            Outcome::Failed(kind, status) => Step::Done(
                Err(
                    VideoError::at(
                        kind,
                        status,
                        self.param.output_file_path.as_str(),
                        self.detail.as_str(),
                    ),
                ),
            ),
        }
    }
}

} // verus!

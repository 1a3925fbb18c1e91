//! What holds of every session of a recorder.

use vstd::prelude::*;
use crate::camera_component::{
    lemma_camera_failure_leaves_nothing, lemma_camera_follows_hardware,
    lemma_camera_operations_keep_wf, lemma_new_camera,
};
use crate::encoder_component::{
    encoder_input_spec, encoder_output_spec, lemma_encoder_failure_leaves_nothing,
    lemma_encoder_follows_hardware, lemma_encoder_operations_keep_wf, lemma_new_encoder,
};
use crate::mmal::{ComponentKind, Handles, Outcome, PortRef, Reply, Request};
use crate::recorder::{camera_video_spec, RecorderPhase, RecorderView};
use crate::video_conn::{
    lemma_conn_failure_leaves_nothing, lemma_conn_follows_hardware, lemma_conn_operations_keep_wf,
    lemma_new_conn,
};
use crate::video_error::VideoErrorKind;
use crate::video_output::channel::{lemma_channel_fifo, lemma_payloads_push, payloads, Record};
use crate::video_output::output_callback_user_data::{
    lemma_callback_keeps_wf, lemma_new_user_data,
};
use crate::video_param::VideoParam;

verus! {

/// Whether `call` is one that the recorder makes in `phase`.
pub open spec fn call_fits(phase: RecorderPhase, call: Request) -> bool {
    match phase {
        RecorderPhase::Idle => false,
        RecorderPhase::CreatingFile => call is CreateOutputFile,
        RecorderPhase::InitCamera => match call {
            Request::CreateComponent(kind) => kind == ComponentKind::Camera,
            Request::EnablePort(port) => port == PortRef::control_spec(ComponentKind::Camera),
            Request::SetCameraConfig(_) => true,
            Request::CommitFormat { port, .. } => port.component == ComponentKind::Camera,
            Request::EnableComponent(kind) => kind == ComponentKind::Camera,
            Request::DestroyComponent(kind) => kind == ComponentKind::Camera,
            _ => false,
        },
        RecorderPhase::InitEncoder => match call {
            Request::CreateComponent(kind) => kind == ComponentKind::Encoder,
            Request::CommitFormat { port, .. } => port == encoder_output_spec(),
            Request::EnableComponent(kind) => kind == ComponentKind::Encoder,
            Request::CreatePool { port, .. } => port == encoder_output_spec(),
            Request::DestroyPool(port) => port == encoder_output_spec(),
            Request::DestroyComponent(kind) => kind == ComponentKind::Encoder,
            _ => false,
        },
        RecorderPhase::InitConn => call is CreateConnection || call is EnableConnection
            || call is DestroyConnection,
        RecorderPhase::EnablingOutput => call == Request::EnablePort(encoder_output_spec()),
        RecorderPhase::Refilling => call matches Request::SendBuffer { port, .. } && port
            == encoder_output_spec(),
        RecorderPhase::StartingCapture => call == Request::SetCapture(camera_video_spec()),
        RecorderPhase::Draining => call is AwaitCallback,
        RecorderPhase::Writing => call is WriteOutputFile,
        RecorderPhase::DisablingOutput => call == Request::DisablePort(encoder_output_spec()),
        RecorderPhase::Syncing => call is SyncOutputFile,
        RecorderPhase::DestroyingConn => call is DestroyConnection,
        RecorderPhase::DisablingEncoder => call == Request::DisableComponent(ComponentKind::Encoder),
        RecorderPhase::DisablingCamera => call == Request::DisableComponent(ComponentKind::Camera),
        RecorderPhase::DestroyingEncoder => call == Request::DestroyPool(encoder_output_spec())
            || call == Request::DestroyComponent(ComponentKind::Encoder),
        RecorderPhase::DestroyingCamera => call == Request::DestroyComponent(ComponentKind::Camera),
        RecorderPhase::Finished => false,
    }
}

/// Which part of the session makes the calls of a phase.
pub enum Part {
    Camera,
    Encoder,
    Conn,
    Processor,
    State,
    Recorder,
}

/// The part that works in `phase`.
pub open spec fn part_of(phase: RecorderPhase) -> Part {
    match phase {
        RecorderPhase::CreatingFile | RecorderPhase::Writing | RecorderPhase::Syncing => Part::State,
        RecorderPhase::InitCamera
        | RecorderPhase::StartingCapture
        | RecorderPhase::DisablingCamera
        | RecorderPhase::DestroyingCamera => Part::Camera,
        RecorderPhase::InitEncoder
        | RecorderPhase::Refilling
        | RecorderPhase::DisablingEncoder
        | RecorderPhase::DestroyingEncoder => Part::Encoder,
        RecorderPhase::InitConn | RecorderPhase::DestroyingConn => Part::Conn,
        RecorderPhase::EnablingOutput | RecorderPhase::DisablingOutput => Part::Processor,
        RecorderPhase::Idle | RecorderPhase::Draining | RecorderPhase::Finished => Part::Recorder,
    }
}

impl RecorderView {
    /// The handles that the session holds.
    pub open spec fn handles(self) -> Handles {
        self.camera.handles().plus(self.encoder.handles()).plus(self.conn.handles())
    }

    /// The records that the callback has passed on, all of them, in their
    /// order; none before the output has been set up.
    pub open spec fn sent(self) -> Seq<Record> {
        match self.processor.user_data {
            Some(user_data) => user_data.channel.sent,
            None => Seq::empty(),
        }
    }

    /// The records that the consumer has taken, in their order.
    pub open spec fn received(self) -> Seq<Record> {
        self.processor.received()
    }

    /// The bytes that have been written to the output file.
    pub open spec fn written(self) -> Seq<u8> {
        self.state.written
    }

    /// Whether every part is in order by itself, and the callback's context
    /// goes with the pool.
    pub open spec fn parts_wf(self) -> bool {
        &&& self.camera.wf()
        &&& self.encoder.wf()
        &&& self.conn.wf()
        &&& self.state.wf()
        &&& self.processor.user_data matches Some(user_data) ==> match self.encoder.pool {
            Some(pool) => user_data.wf_with(pool),
            None => user_data.wf(),
        }
        &&& self.processor.awaiting matches Some(call) ==> call is EnablePort || call is DisablePort
    }

    /// Whether no part has a call in flight.
    pub open spec fn parts_idle(self) -> bool {
        &&& self.camera.awaiting is None
        &&& self.encoder.status.awaiting is None
        &&& self.conn.awaiting is None
        &&& self.processor.awaiting is None
        &&& self.state.awaiting is None
    }

    /// Whether no part is undoing or redoing anything, other than the part
    /// that is being brought up.
    pub open spec fn parts_settled(self) -> bool {
        &&& !self.camera.restart
        &&& !self.encoder.status.restart
        &&& self.conn.restart is None
        &&& self.camera.failure is Some ==> self.phase is InitCamera
        &&& self.encoder.status.failure is Some ==> self.phase is InitEncoder
        &&& self.conn.failure is Some ==> self.phase is InitConn
        &&& self.phase is InitCamera && self.awaiting is Some && self.awaiting->Some_0 is DestroyComponent
            ==> self.camera.failure is Some
        &&& self.phase is InitEncoder && self.awaiting is Some && (self.awaiting->Some_0 is DestroyPool
            || self.awaiting->Some_0 is DestroyComponent) ==> self.encoder.status.failure is Some
        &&& self.phase is InitConn && self.awaiting is Some && self.awaiting->Some_0 is DestroyConnection
            ==> self.conn.failure is Some
    }

    /// Whether the call in flight is one of the phase, made by the part that
    /// works in the phase, and no other part has a call in flight. While the
    /// recorder drains, it waits for the callback.
    pub open spec fn in_flight(self) -> bool {
        let part = part_of(self.phase);
        &&& self.awaiting matches Some(call) ==> call_fits(self.phase, call)
        &&& self.awaiting is Some <==> !(self.phase is Idle || self.phase is Finished)
        &&& self.camera.awaiting == if part is Camera {
            self.awaiting
        } else {
            None
        }
        &&& self.encoder.status.awaiting == if part is Encoder {
            self.awaiting
        } else {
            None
        }
        &&& self.conn.awaiting == if part is Conn {
            self.awaiting
        } else {
            None
        }
        &&& self.processor.awaiting == if part is Processor {
            self.awaiting
        } else {
            None
        }
        &&& self.state.awaiting == if part is State {
            self.awaiting
        } else {
            None
        }
    }

    /// What stands while the recorder is at the place `rank` of a session.
    ///
    /// On the way up: nothing exists before its phase, and everything that
    /// has been brought up is up, as long as the session is not taken down:
    /// the file is open, the camera and the encoder are enabled, the encoder
    /// has its pool, the connection is enabled, the output port is enabled
    /// with the callback. No error has come up before the teardown.
    ///
    /// On the way down: what has been disabled is not enabled, and what has
    /// been destroyed is gone.
    pub open spec fn standing(self, rank: nat) -> bool {
        let up = rank < RecorderPhase::DisablingOutput.rank();
        &&& rank <= RecorderPhase::CreatingFile.rank() ==> !self.camera.state.holds_handle_spec()
        &&& rank <= RecorderPhase::InitCamera.rank() ==> self.encoder.handles() == Handles::none()
        &&& rank <= RecorderPhase::InitEncoder.rank() ==> !self.conn.holds_handle()
        &&& rank <= RecorderPhase::InitConn.rank() ==> self.processor.user_data is None
        &&& rank <= RecorderPhase::EnablingOutput.rank() ==> !self.processor.enabled
        &&& rank == RecorderPhase::Idle.rank() ==> !self.state.open
        &&& up && rank > RecorderPhase::CreatingFile.rank() ==> self.state.open
        &&& up && rank > RecorderPhase::InitCamera.rank() ==> self.camera.state is Enabled
        &&& up && rank > RecorderPhase::InitEncoder.rank() ==> self.encoder.status.state is Enabled
            && self.encoder.pool is Some
        &&& up && rank > RecorderPhase::InitConn.rank() ==> self.conn.state is Enabled
        &&& up && rank > RecorderPhase::EnablingOutput.rank() ==> self.processor.enabled
            && self.processor.user_data is Some
        &&& up ==> self.failure is None
        &&& rank > RecorderPhase::DisablingOutput.rank() ==> !self.processor.enabled
        &&& rank > RecorderPhase::DestroyingConn.rank() ==> !self.conn.holds_handle()
        &&& rank > RecorderPhase::DisablingEncoder.rank() ==> !(self.encoder.status.state is Enabled)
        &&& rank > RecorderPhase::DisablingCamera.rank() ==> !(self.camera.state is Enabled)
        &&& rank > RecorderPhase::DestroyingEncoder.rank() ==> self.encoder.handles()
            == Handles::none()
        &&& rank > RecorderPhase::DestroyingCamera.rank() ==> !self.camera.state.holds_handle_spec()
    }

    /// What stands of the data while the recorder is at the place `rank`.
    ///
    /// Nothing is written before the recorder drains. As long as no error has
    /// come up, the bytes that have been written, followed by those that are
    /// being written, are the bytes of the records that have been taken, in
    /// their order; and once the recorder has left off draining, the last
    /// record that was taken is the end marker.
    pub open spec fn data_standing(self, rank: nat) -> bool {
        let pending = match self.state.pending {
            Some(bytes) => bytes,
            None => Seq::empty(),
        };
        &&& rank < RecorderPhase::Draining.rank() ==> self.received() == Seq::<Record>::empty()
            && self.state.written == Seq::<u8>::empty()
        &&& self.failure is None ==> self.state.written + pending == payloads(self.received())
        &&& rank >= RecorderPhase::DisablingOutput.rank() && self.failure is None
            ==> self.received().len() > 0 && self.received().last() is None
    }

    /// Whether the recorder is in order.
    pub open spec fn wf(self) -> bool {
        &&& self.parts_wf()
        &&& self.parts_settled()
        &&& self.in_flight()
        &&& self.standing(self.phase.rank())
        &&& self.data_standing(self.phase.rank())
        &&& self.phase is EnablingOutput ==> self.processor.user_data is Some
    }

    /// Whether the recorder is in order and ready to enter `phase`: no call
    /// is in flight, and the part that the phase brings up does not exist
    /// yet.
    pub open spec fn ready_for(self, phase: RecorderPhase) -> bool {
        &&& self.parts_wf()
        &&& self.parts_idle()
        &&& !self.camera.restart && !self.encoder.status.restart && self.conn.restart is None
        &&& self.camera.failure is None && self.encoder.status.failure is None
            && self.conn.failure is None
        &&& self.state.pending is None
        &&& self.standing(phase.rank())
        &&& self.data_standing(phase.rank())
        &&& phase is InitCamera ==> !self.camera.state.holds_handle_spec()
        &&& phase is InitEncoder ==> self.encoder.handles() == Handles::none()
        &&& phase is InitConn ==> !self.conn.holds_handle()
        &&& phase is EnablingOutput ==> self.processor.user_data is None
        &&& phase is CreatingFile ==> !self.state.open
    }

    /// Whether the pool, if there is one, has not taken back any buffer yet.
    pub open spec fn pool_untouched(self) -> bool {
        self.encoder.pool matches Some(pool) ==> pool.releases == 0
    }

    /// Whether the count of the buffers that the callback has been given
    /// with data goes on from where it stood in `before`: the count of an
    /// output that was set up is the same; and if no output was set up and
    /// the pool untouched, then the output that has been set up since counts
    /// from 0, or the pool is untouched still.
    pub open spec fn counts_on_from(self, before: RecorderView) -> bool {
        match before.processor.user_data {
            Some(was) => self.processor.user_data matches Some(is) && is.completed == was.completed,
            None => before.pool_untouched() ==> match self.processor.user_data {
                Some(is) => is.completed == 0,
                None => self.pool_untouched(),
            },
        }
    }
}

/// Whether a step that began with the handles `before` has ended in order:
/// the recorder is in order and holds the same handles; if a call was handed
/// out, it is the call in flight; if not, the session is over, and the
/// outcome is its result.
pub open spec fn step_ok(before: Handles, after: RecorderView, outcome: Outcome) -> bool {
    &&& after.wf()
    &&& after.handles() == before
    &&& outcome matches Outcome::Call(call) ==> after.awaiting == Some(call)
    &&& !(outcome is Call) ==> after.phase is Finished && outcome == after.result()
}

/// Whether the recorder can go on in order after the work of `phase` has
/// come to `outcome`.
pub open spec fn can_settle(recorder: RecorderView, phase: RecorderPhase, outcome: Outcome) -> bool {
    match outcome {
        Outcome::Call(call) => (RecorderView { phase, awaiting: Some(call), ..recorder }).wf(),
        Outcome::Finished => if phase.rank() >= RecorderPhase::DestroyingCamera.rank() {
            (RecorderView { phase: RecorderPhase::Finished, awaiting: None, ..recorder }).wf()
        } else {
            recorder.ready_for(phase.next_spec())
        },
        Outcome::Failed(kind, status) => !phase.is_teardown_spec() && recorder.failed(
            kind,
            status,
        ).ready_for(RecorderPhase::DisablingOutput),
    }
}

/// Whether the work of `phase` begins in order: it changes no handle and no
/// count of buffers, does not go back in the order of the session, and the
/// recorder can go on from how it ends.
pub open spec fn begins_in_order(recorder: RecorderView, phase: RecorderPhase) -> bool {
    let (begun, now, outcome) = recorder.begun(phase);
    &&& begun.handles() == recorder.handles()
    &&& begun.counts_on_from(recorder)
    &&& now.rank() >= phase.rank()
    &&& can_settle(begun, now, outcome)
}

// The work of each phase, taken by itself, begins in order.

proof fn lemma_begun_creating_file(recorder: RecorderView)
    requires
        recorder.ready_for(RecorderPhase::CreatingFile),
    ensures
        begins_in_order(recorder, RecorderPhase::CreatingFile),
{
}

proof fn lemma_begun_init_camera(recorder: RecorderView)
    requires
        recorder.ready_for(RecorderPhase::InitCamera),
    ensures
        begins_in_order(recorder, RecorderPhase::InitCamera),
{
    lemma_camera_operations_keep_wf(recorder.camera);
}

proof fn lemma_begun_init_encoder(recorder: RecorderView)
    requires
        recorder.ready_for(RecorderPhase::InitEncoder),
    ensures
        begins_in_order(recorder, RecorderPhase::InitEncoder),
{
    lemma_encoder_operations_keep_wf(recorder.encoder);
}

proof fn lemma_begun_init_conn(recorder: RecorderView)
    requires
        recorder.ready_for(RecorderPhase::InitConn),
    ensures
        begins_in_order(recorder, RecorderPhase::InitConn),
{
    lemma_conn_operations_keep_wf(recorder.conn, encoder_input_spec(), camera_video_spec());
}

proof fn lemma_begun_enabling_output(recorder: RecorderView)
    requires
        recorder.ready_for(RecorderPhase::EnablingOutput),
    ensures
        begins_in_order(recorder, RecorderPhase::EnablingOutput),
{
    lemma_new_user_data(encoder_output_spec(), recorder.encoder.pool->Some_0);
}

proof fn lemma_begun_refilling(recorder: RecorderView)
    requires
        recorder.ready_for(RecorderPhase::Refilling),
    ensures
        begins_in_order(recorder, RecorderPhase::Refilling),
{
    lemma_encoder_operations_keep_wf(recorder.encoder);
}

proof fn lemma_begun_starting_capture(recorder: RecorderView)
    requires
        recorder.ready_for(RecorderPhase::StartingCapture),
    ensures
        begins_in_order(recorder, RecorderPhase::StartingCapture),
{
    lemma_camera_operations_keep_wf(recorder.camera);
}

proof fn lemma_begun_draining(recorder: RecorderView)
    requires
        recorder.ready_for(RecorderPhase::Draining),
    ensures
        begins_in_order(recorder, RecorderPhase::Draining),
{
    let user_data = recorder.processor.user_data->Some_0;
    lemma_channel_fifo(user_data.channel, None);
    if user_data.channel.records.len() > 0 {
        lemma_payloads_push(user_data.channel.received, user_data.channel.records[0]);
    }
}

proof fn lemma_begun_disabling_output(recorder: RecorderView)
    requires
        recorder.ready_for(RecorderPhase::DisablingOutput),
    ensures
        begins_in_order(recorder, RecorderPhase::DisablingOutput),
{
}

proof fn lemma_begun_syncing(recorder: RecorderView)
    requires
        recorder.ready_for(RecorderPhase::Syncing),
    ensures
        begins_in_order(recorder, RecorderPhase::Syncing),
{
}

proof fn lemma_begun_destroying_conn(recorder: RecorderView)
    requires
        recorder.ready_for(RecorderPhase::DestroyingConn),
    ensures
        begins_in_order(recorder, RecorderPhase::DestroyingConn),
{
    lemma_conn_operations_keep_wf(recorder.conn, encoder_input_spec(), camera_video_spec());
}

proof fn lemma_begun_disabling_encoder(recorder: RecorderView)
    requires
        recorder.ready_for(RecorderPhase::DisablingEncoder),
    ensures
        begins_in_order(recorder, RecorderPhase::DisablingEncoder),
{
    lemma_encoder_operations_keep_wf(recorder.encoder);
}

proof fn lemma_begun_disabling_camera(recorder: RecorderView)
    requires
        recorder.ready_for(RecorderPhase::DisablingCamera),
    ensures
        begins_in_order(recorder, RecorderPhase::DisablingCamera),
{
    lemma_camera_operations_keep_wf(recorder.camera);
}

proof fn lemma_begun_destroying_encoder(recorder: RecorderView)
    requires
        recorder.ready_for(RecorderPhase::DestroyingEncoder),
    ensures
        begins_in_order(recorder, RecorderPhase::DestroyingEncoder),
{
    lemma_encoder_operations_keep_wf(recorder.encoder);
}

proof fn lemma_begun_destroying_camera(recorder: RecorderView)
    requires
        recorder.ready_for(RecorderPhase::DestroyingCamera),
    ensures
        begins_in_order(recorder, RecorderPhase::DestroyingCamera),
{
    lemma_camera_operations_keep_wf(recorder.camera);
}

proof fn lemma_begun_finished(recorder: RecorderView)
    requires
        recorder.ready_for(RecorderPhase::Finished),
    ensures
        begins_in_order(recorder, RecorderPhase::Finished),
{
}

/// The work of a phase begins in order.
pub proof fn lemma_begun(recorder: RecorderView, phase: RecorderPhase)
    requires
        recorder.ready_for(phase),
        !(phase is Idle),
        !(phase is Writing),
    ensures
        begins_in_order(recorder, phase),
{
    match phase {
        RecorderPhase::CreatingFile => lemma_begun_creating_file(recorder),
        RecorderPhase::InitCamera => lemma_begun_init_camera(recorder),
        RecorderPhase::InitEncoder => lemma_begun_init_encoder(recorder),
        RecorderPhase::InitConn => lemma_begun_init_conn(recorder),
        RecorderPhase::EnablingOutput => lemma_begun_enabling_output(recorder),
        RecorderPhase::Refilling => lemma_begun_refilling(recorder),
        RecorderPhase::StartingCapture => lemma_begun_starting_capture(recorder),
        RecorderPhase::Draining => lemma_begun_draining(recorder),
        RecorderPhase::DisablingOutput => lemma_begun_disabling_output(recorder),
        RecorderPhase::Syncing => lemma_begun_syncing(recorder),
        RecorderPhase::DestroyingConn => lemma_begun_destroying_conn(recorder),
        RecorderPhase::DisablingEncoder => lemma_begun_disabling_encoder(recorder),
        RecorderPhase::DisablingCamera => lemma_begun_disabling_camera(recorder),
        RecorderPhase::DestroyingEncoder => lemma_begun_destroying_encoder(recorder),
        RecorderPhase::DestroyingCamera => lemma_begun_destroying_camera(recorder),
        RecorderPhase::Finished => lemma_begun_finished(recorder),
        _ => {},
    }
}

/// Whether the reply to the call in flight is taken in order: the handles
/// are those that the call has left, no count of buffers has changed, and
/// the recorder can go on from how the
/// work of the phase ends; after a record has been written, it can drain
/// again.
pub open spec fn replies_in_order(recorder: RecorderView, reply: Reply) -> bool {
    let (replied, outcome) = recorder.hearing(reply).replied(reply);
    &&& replied.handles() == recorder.handles().after(recorder.awaiting->Some_0, reply)
    &&& replied.counts_on_from(recorder)
    &&& if recorder.phase is Writing && outcome is Finished {
        replied.ready_for(RecorderPhase::Draining)
    } else {
        can_settle(replied, recorder.phase, outcome)
    }
}

// In each phase, taken by itself, the reply is taken in order.

proof fn lemma_replied_creating_file(recorder: RecorderView, reply: Reply)
    requires
        recorder.wf(),
        recorder.phase is CreatingFile,
    ensures
        replies_in_order(recorder, reply),
{
}

proof fn lemma_replied_init_camera(recorder: RecorderView, reply: Reply)
    requires
        recorder.wf(),
        recorder.phase is InitCamera,
    ensures
        replies_in_order(recorder, reply),
{
    lemma_camera_follows_hardware(recorder.camera, recorder.camera_param, reply);
    if recorder.camera.resume_spec(recorder.camera_param, reply).1 is Failed {
        lemma_camera_failure_leaves_nothing(recorder.camera, recorder.camera_param, reply);
    }
}

proof fn lemma_replied_init_encoder(recorder: RecorderView, reply: Reply)
    requires
        recorder.wf(),
        recorder.phase is InitEncoder,
    ensures
        replies_in_order(recorder, reply),
{
    lemma_encoder_follows_hardware(recorder.encoder, recorder.encoder_param, reply);
    if recorder.encoder.resume_spec(recorder.encoder_param, reply).1 is Failed {
        lemma_encoder_failure_leaves_nothing(recorder.encoder, recorder.encoder_param, reply);
    }
}

proof fn lemma_replied_init_conn(recorder: RecorderView, reply: Reply)
    requires
        recorder.wf(),
        recorder.phase is InitConn,
    ensures
        replies_in_order(recorder, reply),
{
    lemma_conn_follows_hardware(recorder.conn, reply);
    if recorder.conn.resume_spec(reply).1 is Failed {
        lemma_conn_failure_leaves_nothing(recorder.conn, reply);
    }
}

proof fn lemma_replied_enabling_output(recorder: RecorderView, reply: Reply)
    requires
        recorder.wf(),
        recorder.phase is EnablingOutput,
    ensures
        replies_in_order(recorder, reply),
{
}

proof fn lemma_replied_refilling(recorder: RecorderView, reply: Reply)
    requires
        recorder.wf(),
        recorder.phase is Refilling,
    ensures
        replies_in_order(recorder, reply),
{
    lemma_encoder_follows_hardware(recorder.encoder, recorder.encoder_param, reply);
}

proof fn lemma_replied_starting_capture(recorder: RecorderView, reply: Reply)
    requires
        recorder.wf(),
        recorder.phase is StartingCapture,
    ensures
        replies_in_order(recorder, reply),
{
    lemma_camera_follows_hardware(recorder.camera, recorder.camera_param, reply);
}

proof fn lemma_replied_writing(recorder: RecorderView, reply: Reply)
    requires
        recorder.wf(),
        recorder.phase is Writing,
    ensures
        replies_in_order(recorder, reply),
{
}

proof fn lemma_replied_disabling_output(recorder: RecorderView, reply: Reply)
    requires
        recorder.wf(),
        recorder.phase is DisablingOutput,
    ensures
        replies_in_order(recorder, reply),
{
}

proof fn lemma_replied_syncing(recorder: RecorderView, reply: Reply)
    requires
        recorder.wf(),
        recorder.phase is Syncing,
    ensures
        replies_in_order(recorder, reply),
{
}

proof fn lemma_replied_destroying_conn(recorder: RecorderView, reply: Reply)
    requires
        recorder.wf(),
        recorder.phase is DestroyingConn,
    ensures
        replies_in_order(recorder, reply),
{
    lemma_conn_follows_hardware(recorder.conn, reply);
    if recorder.conn.resume_spec(reply).1 is Failed {
        lemma_conn_failure_leaves_nothing(recorder.conn, reply);
    }
}

proof fn lemma_replied_disabling_encoder(recorder: RecorderView, reply: Reply)
    requires
        recorder.wf(),
        recorder.phase is DisablingEncoder,
    ensures
        replies_in_order(recorder, reply),
{
    lemma_encoder_follows_hardware(recorder.encoder, recorder.encoder_param, reply);
}

proof fn lemma_replied_disabling_camera(recorder: RecorderView, reply: Reply)
    requires
        recorder.wf(),
        recorder.phase is DisablingCamera,
    ensures
        replies_in_order(recorder, reply),
{
    lemma_camera_follows_hardware(recorder.camera, recorder.camera_param, reply);
}

proof fn lemma_replied_destroying_encoder(recorder: RecorderView, reply: Reply)
    requires
        recorder.wf(),
        recorder.phase is DestroyingEncoder,
    ensures
        replies_in_order(recorder, reply),
{
    lemma_encoder_follows_hardware(recorder.encoder, recorder.encoder_param, reply);
}

proof fn lemma_replied_destroying_camera(recorder: RecorderView, reply: Reply)
    requires
        recorder.wf(),
        recorder.phase is DestroyingCamera,
    ensures
        replies_in_order(recorder, reply),
{
    lemma_camera_follows_hardware(recorder.camera, recorder.camera_param, reply);
}

/// The reply to the call in flight is taken in order.
pub proof fn lemma_replied(recorder: RecorderView, reply: Reply)
    requires
        recorder.wf(),
        !(recorder.phase is Idle),
        !(recorder.phase is Draining),
        !(recorder.phase is Finished),
    ensures
        replies_in_order(recorder, reply),
{
    match recorder.phase {
        RecorderPhase::CreatingFile => lemma_replied_creating_file(recorder, reply),
        RecorderPhase::InitCamera => lemma_replied_init_camera(recorder, reply),
        RecorderPhase::InitEncoder => lemma_replied_init_encoder(recorder, reply),
        RecorderPhase::InitConn => lemma_replied_init_conn(recorder, reply),
        RecorderPhase::EnablingOutput => lemma_replied_enabling_output(recorder, reply),
        RecorderPhase::Refilling => lemma_replied_refilling(recorder, reply),
        RecorderPhase::StartingCapture => lemma_replied_starting_capture(recorder, reply),
        RecorderPhase::Writing => lemma_replied_writing(recorder, reply),
        RecorderPhase::DisablingOutput => lemma_replied_disabling_output(recorder, reply),
        RecorderPhase::Syncing => lemma_replied_syncing(recorder, reply),
        RecorderPhase::DestroyingConn => lemma_replied_destroying_conn(recorder, reply),
        RecorderPhase::DisablingEncoder => lemma_replied_disabling_encoder(recorder, reply),
        RecorderPhase::DisablingCamera => lemma_replied_disabling_camera(recorder, reply),
        RecorderPhase::DestroyingEncoder => lemma_replied_destroying_encoder(recorder, reply),
        RecorderPhase::DestroyingCamera => lemma_replied_destroying_camera(recorder, reply),
        _ => {},
    }
}

/// From wherever the recorder can go on in order, it does: the step ends in
/// order.
pub proof fn lemma_settled(recorder: RecorderView, phase: RecorderPhase, outcome: Outcome)
    requires
        can_settle(recorder, phase, outcome),
        !(phase is Idle),
        !(phase is Writing && outcome is Finished),
    ensures
        step_ok(
            recorder.handles(),
            recorder.settled(phase, outcome).0,
            recorder.settled(phase, outcome).1,
        ),
        recorder.settled(phase, outcome).0.counts_on_from(recorder),
    decreases 18 - phase.rank(), 0nat,
{
    match outcome {
        Outcome::Call(_) => {},
        Outcome::Failed(kind, status) => {
            lemma_entered(recorder.failed(kind, status), RecorderPhase::DisablingOutput);
        },
        Outcome::Finished => {
            if phase.rank() < RecorderPhase::DestroyingCamera.rank() {
                lemma_entered(recorder, phase.next_spec());
            }
        },
    }
}

/// A recorder that is ready for a phase enters it in order.
pub proof fn lemma_entered(recorder: RecorderView, phase: RecorderPhase)
    requires
        recorder.ready_for(phase),
        !(phase is Idle),
        !(phase is Writing),
    ensures
        step_ok(recorder.handles(), recorder.entered(phase).0, recorder.entered(phase).1),
        recorder.entered(phase).0.counts_on_from(recorder),
    decreases 18 - phase.rank(), 1nat,
{
    lemma_begun(recorder, phase);
    let (begun, now, outcome) = recorder.begun(phase);
    lemma_settled(begun, now, outcome);
}

/// A new recorder is in order and holds nothing, and its session starts in
/// order.
pub proof fn lemma_session_starts(param: VideoParam)
    ensures
        RecorderView::new_spec(param).wf(),
        RecorderView::new_spec(param).handles() == Handles::none(),
        step_ok(
            Handles::none(),
            RecorderView::new_spec(param).run_spec().0,
            RecorderView::new_spec(param).run_spec().1,
        ),
        RecorderView::new_spec(param).run_spec().0.counts_on_from(RecorderView::new_spec(param)),
{
    let recorder = RecorderView::new_spec(param);
    lemma_new_camera();
    lemma_new_encoder();
    lemma_new_conn();
    assert(payloads(Seq::<Record>::empty()) == Seq::<u8>::empty());
    assert(Seq::<u8>::empty() + Seq::<u8>::empty() =~= Seq::<u8>::empty());
    assert(recorder.ready_for(RecorderPhase::CreatingFile));
    lemma_entered(recorder, RecorderPhase::CreatingFile);
}

/// The session goes on in order, whatever the replies are: after every
/// reply the recorder is in order, and it holds exactly the handles that the
/// call has left on the hardware. The step hands out the next call, or the
/// session is over and the step gives its result. No reply changes the count
/// of the buffers that the callback has been given.
pub proof fn lemma_session_goes_on(recorder: RecorderView, reply: Reply)
    requires
        recorder.wf(),
        recorder.awaiting is Some,
    ensures
        step_ok(
            recorder.handles().after(recorder.awaiting->Some_0, reply),
            recorder.resume_spec(reply).0,
            recorder.resume_spec(reply).1,
        ),
        recorder.resume_spec(reply).0.counts_on_from(recorder),
{
    let rest = recorder.hearing(reply);
    if recorder.phase is Draining {
        assert(rest.ready_for(RecorderPhase::Draining));
        lemma_entered(rest, RecorderPhase::Draining);
    } else {
        lemma_replied(recorder, reply);
        let (replied, outcome) = rest.replied(reply);
        if recorder.phase is Writing && outcome is Finished {
            lemma_entered(replied, RecorderPhase::Draining);
        } else {
            lemma_settled(replied, recorder.phase, outcome);
        }
    }
}

/// The callback leaves the session in order: whenever it runs, and whatever
/// it is given, the recorder is in order afterwards, in the same phase, with
/// the same call in flight and the same handles; and what has been taken and
/// written stays as it was.
pub proof fn lemma_session_callback(
    recorder: RecorderView,
    port_enabled: bool,
    buffer: u32,
    payload: Seq<u8>,
    reply: Reply,
)
    requires
        recorder.wf(),
    ensures
        ({
            let after = recorder.output_callback_spec(port_enabled, buffer, payload).0;
            &&& after.wf()
            &&& after.phase == recorder.phase
            &&& after.awaiting == recorder.awaiting
            &&& after.handles() == recorder.handles()
            &&& after.received() == recorder.received()
            &&& after.written() == recorder.written()
        }),
        ({
            let after = recorder.output_callback_resume_spec(reply).0;
            &&& after.wf()
            &&& after.phase == recorder.phase
            &&& after.awaiting == recorder.awaiting
            &&& after.handles() == recorder.handles()
            &&& after.received() == recorder.received()
            &&& after.written() == recorder.written()
        }),
{
    if recorder.encoder.pool is Some && recorder.processor.user_data is Some {
        lemma_callback_keeps_wf(
            recorder.processor.user_data->Some_0,
            recorder.encoder.pool->Some_0,
            port_enabled,
            buffer,
            payload,
            reply,
        );
    }
}

/// No buffer is lost in a session: the pool has taken back exactly as many
/// buffers as the callback has been given with data; and a call of the
/// callback with data, in a buffer that the pool has handed out, brings one
/// more back, a call without data none.
pub proof fn lemma_session_returns_buffers(
    recorder: RecorderView,
    port_enabled: bool,
    buffer: u32,
    payload: Seq<u8>,
)
    requires
        recorder.wf(),
        recorder.encoder.pool is Some,
        recorder.processor.user_data is Some,
        recorder.encoder.pool->Some_0.in_flight(buffer),
    ensures
        recorder.encoder.pool->Some_0.releases == recorder.processor.user_data->Some_0.completed,
        ({
            let after = recorder.output_callback_spec(port_enabled, buffer, payload).0;
            &&& after.encoder.pool is Some
            &&& after.processor.user_data is Some
            &&& after.encoder.pool->Some_0.releases == recorder.encoder.pool->Some_0.releases
                + if payload.len() > 0 {
                1nat
            } else {
                0nat
            }
            &&& after.processor.user_data->Some_0.completed == after.encoder.pool->Some_0.releases
        }),
{
    crate::video_output::output_callback_user_data::lemma_callback_returns_buffer(
        recorder.processor.user_data->Some_0,
        recorder.encoder.pool->Some_0,
        port_enabled,
        buffer,
        payload,
    );
}

/// When a session is over, nothing is left on the hardware, however it has
/// ended. If it has ended in success, then the callback has passed on exactly
/// one end marker, as the last of its records; the consumer has taken every
/// record that the callback has passed on, in the same order; and the bytes
/// that have been written to the output file are the bytes of these records,
/// in their order.
pub proof fn lemma_session_over(recorder: RecorderView)
    requires
        recorder.wf(),
        recorder.phase is Finished,
    ensures
        recorder.handles() == Handles::none(),
        recorder.awaiting is None,
        recorder.failure is None ==> {
            &&& recorder.sent().len() > 0
            &&& recorder.sent().last() is None
            &&& forall|i: int| 0 <= i < recorder.sent().len() - 1 ==> recorder.sent()[i] is Some
            &&& recorder.received() == recorder.sent()
            &&& recorder.written() == payloads(recorder.sent())
        },
{
    if recorder.failure is None {
        let user_data = recorder.processor.user_data->Some_0;
        let channel = user_data.channel;
        let last = channel.received.len() - 1;
        assert(channel.sent[last] == channel.received[last]);
        assert(channel.sent.len() == channel.received.len());
        assert(channel.records.len() == 0);
        assert(channel.sent =~= channel.received);
        assert(recorder.state.written + Seq::<u8>::empty() =~= recorder.state.written);
    }
}

/// A session that fails leaves nothing behind: whenever a step ends the
/// session in an error, be it an error of bringing the session up or a later
/// one, no component, no pool and no connection exists any more, on the
/// recorder's books and on the hardware alike; and the error is the first
/// that came up in the session.
pub proof fn lemma_session_failure_leaves_nothing(recorder: RecorderView, reply: Reply)
    requires
        recorder.wf(),
        recorder.awaiting is Some,
        recorder.resume_spec(reply).1 is Failed,
    ensures
        ({
            let (after, outcome) = recorder.resume_spec(reply);
            &&& after.phase is Finished
            &&& after.awaiting is None
            &&& after.handles() == Handles::none()
            &&& recorder.handles().after(recorder.awaiting->Some_0, reply) == Handles::none()
            &&& after.failure matches Some((kind, status)) && outcome == Outcome::Failed(kind, status)
            &&& recorder.failure is Some ==> after.failure == recorder.failure
        }),
{
    lemma_session_goes_on(recorder, reply);
    lemma_session_over(recorder.resume_spec(reply).0);
    if recorder.failure is Some {
        lemma_failure_stays(recorder, reply);
    }
}

/// While the recorder drains, it writes one record at a time: it takes the
/// oldest record out of the channel; for a record with data it hands out one
/// call to write, and holds out exactly the bytes of that record; for the
/// end marker it hands out no call to write, and goes on to take the session
/// down.
pub proof fn lemma_drain_writes_each_record(recorder: RecorderView)
    requires
        recorder.wf(),
        recorder.phase is Draining,
        recorder.processor.receiving(),
        recorder.processor.records().len() > 0,
    ensures
        ({
            let (after, outcome) = recorder.resume_spec(Reply::Status(0));
            let record = recorder.processor.records()[0];
            &&& after.received() == recorder.received().push(record)
            &&& after.written() == recorder.written()
            &&& record matches Some(bytes) ==> outcome == Outcome::Call(Request::WriteOutputFile)
                && after.phase is Writing && after.state.pending == Some(bytes)
            &&& record is None ==> outcome != Outcome::Call(Request::WriteOutputFile)
                && after.state.pending is None && after.phase.is_teardown_spec()
        }),
{
    let rest = recorder.hearing(Reply::Status(0));
    lemma_session_goes_on(recorder, Reply::Status(0));
    if recorder.processor.records()[0] is None {
        lemma_teardown_keeps_data(
            rest.begun(RecorderPhase::Draining).0,
            RecorderPhase::DisablingOutput,
        );
    }
}

/// Taking the session down changes neither what has been taken nor what has
/// been written, and no write is part of it.
proof fn lemma_teardown_keeps_data(recorder: RecorderView, phase: RecorderPhase)
    requires
        phase.is_teardown_spec(),
        recorder.parts_idle(),
    ensures
        ({
            let (after, outcome) = recorder.entered(phase);
            &&& after.received() == recorder.received()
            &&& after.written() == recorder.written()
            &&& after.state.pending == recorder.state.pending
            &&& after.phase.is_teardown_spec()
            &&& after.failure == recorder.failure
            &&& outcome != Outcome::Call(Request::WriteOutputFile)
        }),
    decreases 18 - phase.rank(),
{
    let (begun, _, outcome) = recorder.begun(phase);
    if !(outcome is Call) && phase.rank() < RecorderPhase::DestroyingCamera.rank() {
        lemma_teardown_keeps_data(begun, phase.next_spec());
    }
}

/// The first error of a session stays its error.
proof fn lemma_failure_stays(recorder: RecorderView, reply: Reply)
    requires
        recorder.wf(),
        recorder.awaiting is Some,
        recorder.failure is Some,
    ensures
        recorder.resume_spec(reply).0.failure == recorder.failure,
{
    let rest = recorder.hearing(reply);
    let (replied, outcome) = rest.replied(reply);
    assert(recorder.phase.is_teardown_spec());
    if outcome is Call {
    } else if recorder.phase.rank() < RecorderPhase::DestroyingCamera.rank() {
        lemma_teardown_keeps_data(replied, recorder.phase.next_spec());
    }
}

/// The calls of a session come in order. The output file is there before
/// any component is made. The connection is made and enabled only between an
/// enabled camera and an enabled encoder with its pool. The callback is
/// installed only once the connection is enabled, buffers are sent to the
/// encoder only once the callback is installed, and the capture starts only
/// after all that. No component is disabled or destroyed, and no pool
/// destroyed, while the connection exists; no component is destroyed while
/// the pool exists; and in the teardown no component is destroyed while it
/// is enabled.
pub proof fn lemma_calls_in_order(recorder: RecorderView)
    requires
        recorder.wf(),
        recorder.awaiting is Some,
    ensures
        ({
            let call = recorder.awaiting->Some_0;
            let connected = recorder.conn.state is Enabled;
            &&& call is CreateComponent ==> recorder.state.open
            &&& call is CreateConnection || call is EnableConnection
                ==> recorder.camera.state is Enabled && recorder.encoder.status.state is Enabled
                && recorder.encoder.pool is Some
            &&& call is EnablePort && recorder.phase is EnablingOutput ==> connected
            &&& call is SendBuffer ==> connected && recorder.processor.enabled
            &&& call is SetCapture ==> connected && recorder.processor.enabled
            &&& call is DisableComponent || call is DestroyComponent || call is DestroyPool
                ==> !recorder.conn.holds_handle()
            &&& call is DestroyComponent ==> recorder.encoder.pool is None
            &&& call is DestroyComponent && recorder.phase.is_teardown_spec()
                ==> !(recorder.camera.state is Enabled) && !(recorder.encoder.status.state is Enabled)
        }),
{
}

/// Whether nothing is there to take down: no part holds anything, the output
/// port is not enabled, no file is open, and no call is in flight.
pub open spec fn nothing_to_take_down(recorder: RecorderView) -> bool {
    &&& recorder.parts_idle()
    &&& recorder.handles() == Handles::none()
    &&& !recorder.camera.restart && !recorder.encoder.status.restart
    &&& recorder.camera.failure is None && recorder.encoder.status.failure is None
    &&& recorder.conn.failure is None && recorder.conn.restart is None
    &&& !recorder.processor.enabled
    &&& !recorder.state.open
}

/// Where nothing is there to take down, the teardown makes no call: the
/// session is over at once.
proof fn lemma_empty_teardown(recorder: RecorderView, phase: RecorderPhase)
    requires
        nothing_to_take_down(recorder),
        phase.is_teardown_spec(),
        !(phase is Finished),
    ensures
        recorder.entered(phase) == (
            RecorderView { phase: RecorderPhase::Finished, awaiting: None, ..recorder },
            recorder.result(),
        ),
    decreases 18 - phase.rank(),
{
    let (begun, now, outcome) = recorder.begun(phase);
    assert(begun == recorder && now == phase && outcome == Outcome::Finished);
    if phase.rank() < RecorderPhase::DestroyingCamera.rank() {
        lemma_empty_teardown(recorder, phase.next_spec());
    }
}

/// A session whose output file cannot be created, because it exists already
/// or for any other reason, ends at once in an error of the output file: the
/// request to create the file is the only call that the session makes. With
/// an empty path it makes no call at all.
pub proof fn lemma_output_file_comes_first(param: VideoParam, reply: Reply)
    requires
        !reply.succeeded_spec(),
    ensures
        ({
            let (started, first) = RecorderView::new_spec(param).run_spec();
            if param.output_file_path@.len() == 0 {
                &&& first == Outcome::Failed(
                    VideoErrorKind::OutputFileCreate,
                    crate::mmal::MMAL_EINVAL,
                )
                &&& started.phase is Finished
            } else {
                &&& first == Outcome::Call(Request::CreateOutputFile)
                &&& started.resume_spec(reply).1 == Outcome::Failed(
                    VideoErrorKind::OutputFileCreate,
                    reply.status_spec(),
                )
                &&& started.resume_spec(reply).0.phase is Finished
            }
        }),
{
    let recorder = RecorderView::new_spec(param);
    if param.output_file_path@.len() == 0 {
        let failed = recorder.failed(VideoErrorKind::OutputFileCreate, crate::mmal::MMAL_EINVAL);
        lemma_empty_teardown(failed, RecorderPhase::DisablingOutput);
    } else {
        let started = recorder.run_spec().0;
        let rest = started.hearing(reply);
        let (replied, outcome) = rest.replied(reply);
        let failed = replied.failed(VideoErrorKind::OutputFileCreate, reply.status_spec());
        lemma_empty_teardown(failed, RecorderPhase::DisablingOutput);
    }
}

/// What can happen to a session that is under way.
pub enum SessionEvent {
    /// The reply to the call in flight has come.
    Reply(Reply),
    /// The hardware has handed a buffer to the output callback.
    Buffer { port_enabled: bool, buffer: u32, payload: Seq<u8> },
    /// The port has answered the call of the output callback.
    BufferReply(Reply),
}

impl RecorderView {
    /// The recorder after one event. A reply that no call waits for changes
    /// nothing.
    pub open spec fn after_event(self, event: SessionEvent) -> RecorderView {
        match event {
            SessionEvent::Reply(reply) => if self.awaiting is Some {
                self.resume_spec(reply).0
            } else {
                self
            },
            SessionEvent::Buffer { port_enabled, buffer, payload } => self.output_callback_spec(
                port_enabled,
                buffer,
                payload,
            ).0,
            SessionEvent::BufferReply(reply) => self.output_callback_resume_spec(reply).0,
        }
    }

    /// The recorder after a sequence of events.
    pub open spec fn after_events(self, events: Seq<SessionEvent>) -> RecorderView
        decreases events.len(),
    {
        if events.len() == 0 {
            self
        } else {
            self.after_events(events.drop_last()).after_event(events.last())
        }
    }

    /// The handles that exist on the hardware after the recorder has gone
    /// through a sequence of events, if `handles` existed before: every reply
    /// is the reply to the call that was in flight when it came.
    pub open spec fn hardware_after(self, handles: Handles, events: Seq<SessionEvent>) -> Handles
        decreases events.len(),
    {
        if events.len() == 0 {
            handles
        } else {
            let before = self.after_events(events.drop_last());
            let existed = self.hardware_after(handles, events.drop_last());
            match events.last() {
                SessionEvent::Reply(reply) if before.awaiting is Some => existed.after(
                    before.awaiting->Some_0,
                    reply,
                ),
                _ => existed,
            }
        }
    }
}

/// Every session is in order, whatever happens: whichever replies come, and
/// whenever the hardware hands whichever buffers to the callback, the
/// recorder is in order after every event, and holds exactly the handles that
/// exist on the hardware; and the pool has taken back as many buffers as the
/// callback has been given with data. When the session is over, no handle
/// exists any more; and
/// if it has ended in success, the callback has passed on exactly one end
/// marker, as the last of its records, the consumer has taken all the records
/// in the order in which they were passed on, and the bytes in the output
/// file are the bytes of these records, in that order.
pub proof fn lemma_every_session(param: VideoParam, events: Seq<SessionEvent>)
    ensures
        ({
            let start = RecorderView::new_spec(param).run_spec().0;
            let end = start.after_events(events);
            &&& end.wf()
            &&& end.handles() == start.hardware_after(Handles::none(), events)
            &&& end.encoder.pool is Some && end.processor.user_data is Some
                ==> end.encoder.pool->Some_0.releases == end.processor.user_data->Some_0.completed
            &&& end.phase is Finished ==> end.handles() == Handles::none()
            &&& end.phase is Finished && end.failure is None ==> {
                &&& end.sent().len() > 0
                &&& end.sent().last() is None
                &&& forall|i: int| 0 <= i < end.sent().len() - 1 ==> end.sent()[i] is Some
                &&& end.received() == end.sent()
                &&& end.written() == payloads(end.sent())
            }
        }),
    decreases events.len(),
{
    let start = RecorderView::new_spec(param).run_spec().0;
    if events.len() == 0 {
        lemma_session_starts(param);
    } else {
        lemma_every_session(param, events.drop_last());
        let before = start.after_events(events.drop_last());
        match events.last() {
            SessionEvent::Reply(reply) => {
                if before.awaiting is Some {
                    lemma_session_goes_on(before, reply);
                }
            },
            SessionEvent::Buffer { port_enabled, buffer, payload } => {
                lemma_session_callback(before, port_enabled, buffer, payload, Reply::Status(0));
            },
            SessionEvent::BufferReply(reply) => {
                lemma_session_callback(before, false, 0, Seq::empty(), reply);
            },
        }
    }
    let end = start.after_events(events);
    if end.phase is Finished {
        lemma_session_over(end);
    }
}

impl RecorderView {
    /// Whether the event is a call of the output callback that counts: the
    /// callback is given a buffer with data that the pool has handed out,
    /// while the output is set up.
    pub open spec fn returns_a_buffer(self, event: SessionEvent) -> bool {
        &&& event matches SessionEvent::Buffer { buffer, payload, .. }
        &&& payload.len() > 0
        &&& self.processor.user_data is Some
        &&& self.encoder.pool matches Some(pool)
        &&& pool.in_flight(buffer)
    }

    /// How many of the events, each in the state that the events before it
    /// have led to, are calls of the output callback that count.
    pub open spec fn buffers_returned(self, events: Seq<SessionEvent>) -> nat
        decreases events.len(),
    {
        if events.len() == 0 {
            0
        } else {
            self.buffers_returned(events.drop_last()) + if self.after_events(
                events.drop_last(),
            ).returns_a_buffer(events.last()) {
                1nat
            } else {
                0nat
            }
        }
    }
}

/// No buffer is lost in any session: whatever happens, the number of buffers
/// that the pool has taken back is the number of times that the callback has
/// been given a buffer with data; a call without data brings none back.
/// Before the output is set up the callback does nothing, and the pool has
/// taken back no buffer.
pub proof fn lemma_no_buffer_is_lost(param: VideoParam, events: Seq<SessionEvent>)
    ensures
        ({
            let start = RecorderView::new_spec(param).run_spec().0;
            let end = start.after_events(events);
            let count = start.buffers_returned(events);
            &&& end.wf()
            &&& match end.processor.user_data {
                Some(user_data) => user_data.completed == count && (end.encoder.pool matches Some(
                    pool,
                ) ==> pool.releases == count),
                None => count == 0 && end.pool_untouched(),
            }
        }),
    decreases events.len(),
{
    let start = RecorderView::new_spec(param).run_spec().0;
    lemma_every_session(param, events);
    if events.len() == 0 {
        lemma_session_starts(param);
    } else {
        lemma_no_buffer_is_lost(param, events.drop_last());
        lemma_every_session(param, events.drop_last());
        let before = start.after_events(events.drop_last());
        match events.last() {
            SessionEvent::Reply(reply) => {
                if before.awaiting is Some {
                    lemma_session_goes_on(before, reply);
                }
            },
            _ => {},
        }
    }
}

} // verus!

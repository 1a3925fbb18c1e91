use rpi_video_rs::init::Platform;
use rpi_video_rs::mmal::{
    mmal_fourcc, ComponentState, PortDirection, PortRef, ComponentKind, Reply, Request, Step,
    MMAL_EINVAL, MMAL_ENCODING_H264, MMAL_ENCODING_I420, MMAL_ENCODING_OPAQUE, MMAL_SUCCESS,
};
use rpi_video_rs::recorder::{Recorder, RecorderPhase};
use rpi_video_rs::video_error::{VideoError, VideoErrorKind};
use rpi_video_rs::video_output::output_buffer::OutputBuffer;
use rpi_video_rs::video_param::{decimal, VideoParam};
use rpi_video_rs::video_state::VideoState;

fn call(step: Step<()>) -> Request {
    match step {
        Step::Call(request) => request,
        other => panic!("expected a call, got {:?}", other),
    }
}

fn done(step: Step<()>) {
    match step {
        Step::Done(Ok(())) => {}
        other => panic!("expected success, got {:?}", other),
    }
}

fn failed(step: Step<()>) -> (VideoErrorKind, u32) {
    match step {
        Step::Done(Err(error)) => (error.kind, error.mmal_status),
        other => panic!("expected an error, got {:?}", other),
    }
}

fn state(path: &str) -> VideoState {
    VideoState::new(VideoParam {
        width: 1,
        height: 1,
        bit_rate: 1,
        frame_rate: 1,
        max_seconds: 1,
        output_file_path: path.to_string(),
    })
}

#[test]
fn decimal_writes_numbers_without_leading_zeros() {
    assert_eq!(decimal(0), "0");
    assert_eq!(decimal(7), "7");
    assert_eq!(decimal(10), "10");
    assert_eq!(decimal(1234567890), "1234567890");
    assert_eq!(decimal(u64::MAX), "18446744073709551615");
}

#[test]
fn default_parameters_at_a_given_second() {
    let param = VideoParam::default_at(1700000000);
    assert_eq!(param.width, 1920);
    assert_eq!(param.height, 1080);
    assert_eq!(param.bit_rate, 17000000);
    assert_eq!(param.frame_rate, 30);
    assert_eq!(param.max_seconds, 5);
    assert_eq!(param.output_file_path, "1700000000.h264");
    assert_eq!(VideoParam::default_at(0).output_file_path, "0.h264");
}

#[test]
fn default_parameters_name_the_file_after_the_clock() {
    let param = VideoParam::default();
    assert_eq!(param.width, 1920);
    assert_eq!(param.height, 1080);
    assert_eq!(param.bit_rate, 17000000);
    assert_eq!(param.frame_rate, 30);
    assert_eq!(param.max_seconds, 5);
    let stem = param.output_file_path.strip_suffix(".h264").expect("no extension");
    assert!(!stem.is_empty());
    assert!(stem.chars().all(|c| c.is_ascii_digit()));
    let seconds: u64 = stem.parse().expect("not a number");
    assert!(seconds > 1_500_000_000);
    assert_eq!(decimal(seconds), stem);
}

#[test]
fn duplicate_parameters_are_equal() {
    let param = VideoParam::default_at(42);
    let copy = param.duplicate();
    assert_eq!(copy.width, param.width);
    assert_eq!(copy.height, param.height);
    assert_eq!(copy.bit_rate, param.bit_rate);
    assert_eq!(copy.frame_rate, param.frame_rate);
    assert_eq!(copy.max_seconds, param.max_seconds);
    assert_eq!(copy.output_file_path, "42.h264");
}

#[test]
fn recorder_without_parameters_takes_the_default_ones() {
    let recorder = Recorder::new(None);
    assert!(recorder.output_file_path().ends_with(".h264"));
    assert_eq!(recorder.phase(), RecorderPhase::Idle);
    assert_eq!(recorder.awaiting(), None);
    assert!(recorder.pending_output().is_none());
}

#[test]
fn error_messages_name_the_call_that_failed() {
    let cases = [
        (VideoErrorKind::ComponentCreate, "Failed to invoke `mmal_component_create`"),
        (VideoErrorKind::ControlPortEnable, "Failed to invoke `mmal_port_enable`"),
        (VideoErrorKind::FormatCommit, "Failed to invoke `mmal_port_format_commit`"),
        (VideoErrorKind::ComponentEnable, "Failed to invoke `mmal_component_enable`"),
        (VideoErrorKind::ConnectionCreate, "Failed to invoke `mmal_connection_create`"),
        (VideoErrorKind::ConnectionEnable, "Failed to invoke `mmal_connection_enable`"),
        (VideoErrorKind::PoolCreate, "Failed to invoke `mmal_port_pool_create`"),
        (VideoErrorKind::BufferSubmit, "Failed to invoke `mmal_port_send_buffer`"),
        (VideoErrorKind::PoolExhausted, "Failed to invoke `mmal_queue_get`"),
        (VideoErrorKind::OutputPortEnable, "Failed to invoke `mmal_port_enable`"),
        (VideoErrorKind::CaptureStart, "Failed to invoke `mmal_port_parameter_set_boolean`"),
        (VideoErrorKind::StrayBuffer, "The completed buffer does not belong to the pool"),
        (VideoErrorKind::ChannelSend, "Failed to invoke `send`"),
        (VideoErrorKind::ChannelReceive, "Failed to invoke `recv`"),
        (VideoErrorKind::OutputFileCreate, "Failed to create the output file"),
        (VideoErrorKind::OutputFileWrite, "Failed to write the output file"),
    ];
    for (kind, message) in cases {
        let error = VideoError::new(kind, 5);
        assert_eq!(error.kind, kind);
        assert_eq!(error.message, message);
        assert_eq!(error.mmal_status, 5);
    }
}

#[test]
fn errors_about_the_output_file_name_the_file() {
    let error = VideoError::at(VideoErrorKind::OutputFileCreate, MMAL_EINVAL, "out.h264", "");
    assert_eq!(error.kind, VideoErrorKind::OutputFileCreate);
    assert_eq!(error.mmal_status, MMAL_EINVAL);
    assert_eq!(error.message, "Failed to create the output file `out.h264`");
    let error =
        VideoError::at(VideoErrorKind::OutputFileWrite, 9, "/tmp/a long path/video.h264", "");
    assert_eq!(error.message, "Failed to write the output file `/tmp/a long path/video.h264`");
    assert_eq!(error.mmal_status, 9);
    let error = VideoError::at(VideoErrorKind::OutputFileWrite, 9, "", "");
    assert_eq!(error.message, "Failed to write the output file ``");
}

#[test]
fn errors_about_the_output_file_say_what_the_file_system_said() {
    let error = VideoError::at(
        VideoErrorKind::OutputFileCreate,
        MMAL_EINVAL,
        "out.h264",
        "Os { code: 17, kind: AlreadyExists, message: \"File exists\" }",
    );
    assert_eq!(
        error.message,
        "Failed to create the output file `out.h264`: Os { code: 17, kind: AlreadyExists, message: \"File exists\" }"
    );
    let error = VideoError::at(VideoErrorKind::OutputFileWrite, 3, "a.h264", "disk full");
    assert_eq!(error.message, "Failed to write the output file `a.h264`: disk full");
}

#[test]
fn other_errors_are_the_same_with_any_file() {
    let error = VideoError::at(VideoErrorKind::FormatCommit, 7, "out.h264", "disk full");
    assert_eq!(error.kind, VideoErrorKind::FormatCommit);
    assert_eq!(error.mmal_status, 7);
    assert_eq!(error.message, "Failed to invoke `mmal_port_format_commit`");
    assert_eq!(error.message, VideoError::new(VideoErrorKind::FormatCommit, 7).message);
    assert!(VideoErrorKind::OutputFileCreate.is_of_file());
    assert!(VideoErrorKind::OutputFileWrite.is_of_file());
    assert!(!VideoErrorKind::FormatCommit.is_of_file());
    assert!(!VideoErrorKind::ChannelReceive.is_of_file());
}

#[test]
fn clone_of_an_error_is_the_same_error() {
    let error = VideoError::at(VideoErrorKind::OutputFileCreate, 3, "a.h264", "no room");
    let copy = error.clone();
    assert_eq!(copy.kind, error.kind);
    assert_eq!(copy.message, error.message);
    assert_eq!(copy.mmal_status, error.mmal_status);
}

fn failure(step: Step<()>) -> VideoError {
    match step {
        Step::Done(Err(error)) => error,
        other => panic!("expected an error, got {:?}", other),
    }
}

#[test]
fn file_errors_of_the_state_name_its_path() {
    let path = "a/rather/long/path/that/is/longer/than/the/text/before/it/sink.h264";
    let mut sink = state(path);
    call(sink.init());
    let error = failure(sink.resume(&Reply::Outcome(false)));
    assert_eq!(error.kind, VideoErrorKind::OutputFileCreate);
    assert_eq!(error.mmal_status, MMAL_EINVAL);
    assert_eq!(error.message, format!("Failed to create the output file `{}`", path));
    assert!(error.message.contains(path));
    let error = failure(sink.write_output_file(OutputBuffer::new(&[1])));
    assert_eq!(error.kind, VideoErrorKind::OutputFileWrite);
    assert_eq!(error.message, format!("Failed to write the output file `{}`", path));
    call(sink.init());
    done(sink.resume(&Reply::Outcome(true)));
    call(sink.write_output_file(OutputBuffer::new(&[1, 2])));
    let error = failure(sink.resume(&Reply::Status(5)));
    assert_eq!(error.kind, VideoErrorKind::OutputFileWrite);
    assert_eq!(error.mmal_status, 5);
    assert_eq!(error.message, format!("Failed to write the output file `{}`", path));
    let error = failure(state("").init());
    assert_eq!(error.message, "Failed to create the output file ``");
}

#[test]
fn file_errors_of_the_state_say_what_the_reply_said() {
    let mut sink = state("sink.h264");
    call(sink.init());
    let error = failure(sink.resume(&Reply::Failure("AlreadyExists".to_string())));
    assert_eq!(error.kind, VideoErrorKind::OutputFileCreate);
    assert_eq!(error.mmal_status, MMAL_EINVAL);
    assert_eq!(error.message, "Failed to create the output file `sink.h264`: AlreadyExists");
    assert!(!sink.validate_output_file_handle());
    call(sink.init());
    done(sink.resume(&Reply::Outcome(true)));
    call(sink.write_output_file(OutputBuffer::new(&[1, 2])));
    let error = failure(sink.resume(&Reply::Failure("disk full".to_string())));
    assert_eq!(error.kind, VideoErrorKind::OutputFileWrite);
    assert_eq!(error.message, "Failed to write the output file `sink.h264`: disk full");
    assert!(sink.pending_output().is_none());
}

#[test]
fn a_failure_in_words_is_a_failure() {
    let reply = Reply::Failure("no".to_string());
    assert_eq!(reply.status(), MMAL_EINVAL);
    assert!(!reply.succeeded());
    assert!(!reply.has_component());
    assert_eq!(reply.detail(), "no");
    assert_eq!(Reply::Outcome(false).detail(), "");
    assert_eq!(Reply::Status(7).detail(), "");
}

#[test]
fn encodings_are_four_character_codes() {
    assert_eq!(mmal_fourcc(b'H', b'2', b'6', b'4'), MMAL_ENCODING_H264);
    assert_eq!(mmal_fourcc(b'I', b'4', b'2', b'0'), MMAL_ENCODING_I420);
    assert_eq!(mmal_fourcc(b'O', b'P', b'Q', b'V'), MMAL_ENCODING_OPAQUE);
    assert_eq!(mmal_fourcc(1, 2, 3, 4), 0x04030201);
    assert_eq!(mmal_fourcc(0xff, 0xff, 0xff, 0xff), u32::MAX);
}

#[test]
fn every_reply_has_a_status() {
    assert_eq!(Reply::Status(9).status(), 9);
    assert_eq!(Reply::Outcome(true).status(), MMAL_SUCCESS);
    assert_eq!(Reply::Outcome(false).status(), MMAL_EINVAL);
    assert_eq!(Reply::Component { status: 6, ports: None }.status(), 6);
    assert!(Reply::Status(0).succeeded());
    assert!(!Reply::Status(1).succeeded());
    assert!(!Reply::Outcome(false).succeeded());
    assert!(!Reply::Status(0).has_component());
    assert!(!Reply::Component { status: 0, ports: None }.has_component());
    assert_eq!(MMAL_SUCCESS, 0);
    assert_eq!(MMAL_EINVAL, 3);
}

#[test]
fn component_states_with_a_handle() {
    assert!(!ComponentState::Uninitialized.holds_handle());
    assert!(ComponentState::Created.holds_handle());
    assert!(ComponentState::ControlEnabled.holds_handle());
    assert!(ComponentState::Configured.holds_handle());
    assert!(ComponentState::Enabled.holds_handle());
    assert!(ComponentState::Disabled.holds_handle());
    assert!(!ComponentState::Destroyed.holds_handle());
}

#[test]
fn port_references_name_component_direction_and_index() {
    assert_eq!(
        PortRef::output(ComponentKind::Camera, 2),
        PortRef { component: ComponentKind::Camera, direction: PortDirection::Output, index: 2 }
    );
    assert_eq!(
        PortRef::input(ComponentKind::Encoder, 0),
        PortRef { component: ComponentKind::Encoder, direction: PortDirection::Input, index: 0 }
    );
    assert_eq!(
        PortRef::control(ComponentKind::Camera),
        PortRef { component: ComponentKind::Camera, direction: PortDirection::Control, index: 0 }
    );
}

#[test]
fn platform_is_brought_up_once() {
    let mut platform = Platform::new();
    assert!(!platform.started());
    assert_eq!(rpi_video_rs::init(&mut platform), Some(Request::InitPlatform));
    assert!(platform.started());
    assert_eq!(rpi_video_rs::init(&mut platform), None);
    assert_eq!(rpi_video_rs::init(&mut platform), None);
    assert!(platform.started());
}

#[test]
fn phases_follow_each_other() {
    let mut phase = RecorderPhase::Idle;
    let mut place = 0;
    while phase != RecorderPhase::Finished {
        assert_eq!(phase.place(), place);
        assert_eq!(phase.is_teardown(), place >= 10);
        let next = phase.next();
        assert!(next.place() > phase.place());
        place = if phase == RecorderPhase::Draining { 10 } else { place + 1 };
        phase = if phase == RecorderPhase::Draining { RecorderPhase::DisablingOutput } else { next };
    }
    assert_eq!(RecorderPhase::Writing.next(), RecorderPhase::DisablingOutput);
    assert_eq!(RecorderPhase::Writing.place(), 9);
    assert_eq!(RecorderPhase::Finished.next(), RecorderPhase::Finished);
    assert_eq!(RecorderPhase::Finished.place(), 17);
}

#[test]
fn output_file_is_created_then_written_in_order() {
    let mut sink = state("sink.h264");
    assert_eq!(sink.output_file_path(), "sink.h264");
    assert!(sink.validate_output_file_path());
    assert!(!sink.validate_output_file_handle());
    assert_eq!(call(sink.init()), Request::CreateOutputFile);
    done(sink.resume(&Reply::Outcome(true)));
    assert!(sink.validate_output_file_handle());
    assert!(sink.pending_output().is_none());
    assert_eq!(call(sink.write_output_file(OutputBuffer::new(&[1, 2, 3]))), Request::WriteOutputFile);
    assert_eq!(sink.pending_output(), Some(&[1u8, 2, 3][..]));
    done(sink.resume(&Reply::Outcome(true)));
    assert!(sink.pending_output().is_none());
    assert_eq!(call(sink.sync_output_file()), Request::SyncOutputFile);
    done(sink.resume(&Reply::Status(5)));
    assert_eq!(sink.awaiting(), None);
}

#[test]
fn output_file_that_exists_is_an_error() {
    let mut sink = state("sink.h264");
    call(sink.init());
    assert_eq!(
        failed(sink.resume(&Reply::Outcome(false))),
        (VideoErrorKind::OutputFileCreate, MMAL_EINVAL)
    );
    assert!(!sink.validate_output_file_handle());
    assert_eq!(
        failed(sink.write_output_file(OutputBuffer::new(&[1]))),
        (VideoErrorKind::OutputFileWrite, MMAL_EINVAL)
    );
    done(sink.sync_output_file());
}

#[test]
fn output_file_without_a_path_is_an_error() {
    let mut sink = state("");
    assert!(!sink.validate_output_file_path());
    assert_eq!(failed(sink.init()), (VideoErrorKind::OutputFileCreate, MMAL_EINVAL));
    assert_eq!(sink.awaiting(), None);
}

#[test]
fn failed_write_is_an_error_of_the_output_file() {
    let mut sink = state("sink.h264");
    call(sink.init());
    done(sink.resume(&Reply::Outcome(true)));
    call(sink.write_output_file(OutputBuffer::new(&[1])));
    assert_eq!(call(sink.write_output_file(OutputBuffer::new(&[2]))), Request::WriteOutputFile);
    assert_eq!(sink.pending_output(), Some(&[1u8][..]));
    assert_eq!(
        failed(sink.resume(&Reply::Outcome(false))),
        (VideoErrorKind::OutputFileWrite, MMAL_EINVAL)
    );
    assert!(sink.pending_output().is_none());
}

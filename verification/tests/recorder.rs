use rpi_video_rs::mmal::{
    ComponentKind, ComponentPorts, Port, PortDirection, PortRef, Reply, Request, Step,
    VideoFormat, MMAL_EINVAL, MMAL_ENCODING_H264,
};
use rpi_video_rs::recorder::{Recorder, RecorderPhase};
use rpi_video_rs::video_error::VideoErrorKind;
use rpi_video_rs::video_param::VideoParam;
use std::collections::VecDeque;

fn param(path: &str) -> VideoParam {
    VideoParam {
        width: 1920,
        height: 1080,
        bit_rate: 17000000,
        frame_rate: 30,
        max_seconds: 5,
        output_file_path: path.to_string(),
    }
}

fn port(buffer_num: u32, buffer_size: u32) -> Port {
    Port {
        format: VideoFormat {
            encoding: 0,
            encoding_variant: 0,
            bitrate: 0,
            width: 0,
            height: 0,
            crop_x: 0,
            crop_y: 0,
            crop_width: 0,
            crop_height: 0,
            frame_rate_num: 0,
            frame_rate_den: 0,
        },
        buffer_num,
        buffer_size,
        buffer_num_min: 1,
        buffer_num_recommended: buffer_num,
        buffer_size_min: 1024,
        buffer_size_recommended: buffer_size,
        is_enabled: false,
    }
}

/// A stand-in for the coprocessor and the file system: it answers every call,
/// counts what exists, keeps the buffers it was sent, and completes them with
/// payloads of the sizes it was told.
struct Machine {
    fail: Option<Request>,
    fail_kind: Option<fn(&Request) -> bool>,
    file_exists: bool,
    components: i32,
    pools: i32,
    connections: i32,
    held: VecDeque<u32>,
    sizes: VecDeque<usize>,
    file: Vec<u8>,
    expected: Vec<u8>,
    calls: Vec<Request>,
    next_byte: u8,
}

impl Machine {
    fn new(sizes: &[usize]) -> Machine {
        Machine {
            fail: None,
            fail_kind: None,
            file_exists: false,
            components: 0,
            pools: 0,
            connections: 0,
            held: VecDeque::new(),
            sizes: sizes.iter().copied().collect(),
            file: Vec::new(),
            expected: Vec::new(),
            calls: Vec::new(),
            next_byte: 0,
        }
    }

    fn fails(&self, request: &Request) -> bool {
        if self.fail == Some(*request) {
            return true;
        }
        match self.fail_kind {
            Some(matcher) => matcher(request),
            None => false,
        }
    }

    fn perform(&mut self, recorder: &mut Recorder, request: Request) -> Reply {
        self.calls.push(request);
        let failed = self.fails(&request);
        match request {
            Request::CreateComponent(kind) => {
                if failed {
                    return Reply::Component { status: 1, ports: None };
                }
                self.components += 1;
                let ports = match kind {
                    ComponentKind::Camera => ComponentPorts {
                        input: Vec::new(),
                        output: vec![port(1, 0), port(1, 0), port(1, 0)],
                    },
                    ComponentKind::Encoder => ComponentPorts {
                        input: vec![port(1, 0)],
                        output: vec![port(1, 65536)],
                    },
                };
                Reply::Component { status: 0, ports: Some(ports) }
            }
            Request::DestroyComponent(_) => {
                self.components -= 1;
                Reply::Status(0)
            }
            Request::CreatePool { .. } => {
                if failed {
                    return Reply::Outcome(false);
                }
                self.pools += 1;
                Reply::Outcome(true)
            }
            Request::DestroyPool(_) => {
                self.pools -= 1;
                Reply::Status(0)
            }
            Request::CreateConnection { .. } => {
                if failed {
                    return Reply::Status(7);
                }
                self.connections += 1;
                Reply::Status(0)
            }
            Request::DestroyConnection => {
                self.connections -= 1;
                Reply::Status(0)
            }
            Request::SendBuffer { buffer, .. } => {
                if failed {
                    return Reply::Status(7);
                }
                self.held.push_back(buffer);
                Reply::Status(0)
            }
            Request::CreateOutputFile => Reply::Outcome(!self.file_exists && !failed),
            Request::WriteOutputFile => {
                if failed {
                    return Reply::Outcome(false);
                }
                let bytes = recorder.pending_output().expect("a write without bytes");
                self.file.extend_from_slice(bytes);
                Reply::Outcome(true)
            }
            Request::AwaitCallback => {
                self.complete_one(recorder);
                Reply::Status(0)
            }
            _ => {
                if failed {
                    Reply::Status(7)
                } else {
                    Reply::Status(0)
                }
            }
        }
    }

    /// The hardware completes the buffer it has held the longest.
    fn complete_one(&mut self, recorder: &mut Recorder) {
        let buffer = self.held.pop_front().expect("the hardware holds no buffer");
        let size = self.sizes.pop_front().expect("nothing left to complete");
        let mut payload = Vec::with_capacity(size);
        for _ in 0..size {
            payload.push(self.next_byte);
            self.next_byte = self.next_byte.wrapping_add(1);
        }
        self.expected.extend_from_slice(&payload);
        match recorder.output_callback(true, buffer, &payload) {
            Step::Call(call) => {
                let reply = self.perform(recorder, call);
                match recorder.output_callback_resume(&reply) {
                    Step::Done(Ok(())) => {}
                    other => panic!("the resubmission ended in {:?}", other),
                }
            }
            Step::Done(Ok(())) => {}
            Step::Done(Err(error)) => panic!("the callback failed: {:?}", error),
        }
    }

    fn drive(&mut self, recorder: &mut Recorder) -> Result<String, (VideoErrorKind, u32)> {
        let mut step = recorder.run();
        loop {
            match step {
                Step::Call(request) => {
                    let reply = self.perform(recorder, request);
                    step = recorder.resume(&reply);
                }
                Step::Done(Ok(res)) => return Ok(res.output_file_path),
                Step::Done(Err(error)) => return Err((error.kind, error.mmal_status)),
            }
        }
    }
}

#[test]
fn session_writes_the_payloads_in_order() {
    let mut recorder = Recorder::new(Some(param("out.h264")));
    let mut machine = Machine::new(&[4096, 8192, 2048, 1024, 0]);
    let result = machine.drive(&mut recorder);
    assert_eq!(result, Ok("out.h264".to_string()));
    assert_eq!(machine.file.len(), 4096 + 8192 + 2048 + 1024);
    assert_eq!(machine.file, machine.expected);
    assert_eq!(recorder.phase(), RecorderPhase::Finished);
    assert_eq!((machine.components, machine.pools, machine.connections), (0, 0, 0));
}

#[test]
fn session_makes_its_calls_in_order() {
    let mut recorder = Recorder::new(Some(param("out.h264")));
    let mut machine = Machine::new(&[0]);
    assert!(machine.drive(&mut recorder).is_ok());
    let camera_video = PortRef { component: ComponentKind::Camera, direction: PortDirection::Output, index: 1 };
    let encoder_in = PortRef { component: ComponentKind::Encoder, direction: PortDirection::Input, index: 0 };
    let encoder_out = PortRef { component: ComponentKind::Encoder, direction: PortDirection::Output, index: 0 };
    let names: Vec<String> = machine
        .calls
        .iter()
        .map(|call| match call {
            Request::CommitFormat { port, .. } => format!("Commit({:?},{})", port.component, port.index),
            Request::SetCameraConfig(_) => "SetCameraConfig".to_string(),
            Request::SendBuffer { buffer, .. } => format!("Send({})", buffer),
            other => format!("{:?}", other),
        })
        .collect();
    let expected: Vec<String> = vec![
        format!("{:?}", Request::CreateOutputFile),
        format!("{:?}", Request::CreateComponent(ComponentKind::Camera)),
        format!("{:?}", Request::EnablePort(PortRef { component: ComponentKind::Camera, direction: PortDirection::Control, index: 0 })),
        "SetCameraConfig".to_string(),
        "Commit(Camera,2)".to_string(),
        "Commit(Camera,0)".to_string(),
        "Commit(Camera,1)".to_string(),
        format!("{:?}", Request::EnableComponent(ComponentKind::Camera)),
        format!("{:?}", Request::CreateComponent(ComponentKind::Encoder)),
        "Commit(Encoder,0)".to_string(),
        format!("{:?}", Request::EnableComponent(ComponentKind::Encoder)),
        format!("{:?}", Request::CreatePool { port: encoder_out, buffer_num: 3, buffer_size: 65536 }),
        format!("{:?}", Request::CreateConnection { output: camera_video, input: encoder_in, tunnelling: true, allocation_on_input: true }),
        format!("{:?}", Request::EnableConnection),
        format!("{:?}", Request::EnablePort(encoder_out)),
        "Send(0)".to_string(),
        "Send(1)".to_string(),
        "Send(2)".to_string(),
        format!("{:?}", Request::SetCapture(camera_video)),
        format!("{:?}", Request::AwaitCallback),
        format!("{:?}", Request::DisablePort(encoder_out)),
        format!("{:?}", Request::SyncOutputFile),
        format!("{:?}", Request::DestroyConnection),
        format!("{:?}", Request::DisableComponent(ComponentKind::Encoder)),
        format!("{:?}", Request::DisableComponent(ComponentKind::Camera)),
        format!("{:?}", Request::DestroyPool(encoder_out)),
        format!("{:?}", Request::DestroyComponent(ComponentKind::Encoder)),
        format!("{:?}", Request::DestroyComponent(ComponentKind::Camera)),
    ];
    assert_eq!(names, expected);
}

#[test]
fn existing_output_file_fails_before_any_component() {
    let mut recorder = Recorder::new(Some(param("out.h264")));
    let mut machine = Machine::new(&[]);
    machine.file_exists = true;
    let result = machine.drive(&mut recorder);
    assert_eq!(result, Err((VideoErrorKind::OutputFileCreate, MMAL_EINVAL)));
    assert_eq!(machine.calls, vec![Request::CreateOutputFile]);
    assert_eq!(recorder.phase(), RecorderPhase::Finished);
}

#[test]
fn empty_output_path_fails_without_any_call() {
    let mut recorder = Recorder::new(Some(param("")));
    let mut machine = Machine::new(&[]);
    let result = machine.drive(&mut recorder);
    assert_eq!(result, Err((VideoErrorKind::OutputFileCreate, MMAL_EINVAL)));
    assert!(machine.calls.is_empty());
}

#[test]
fn failed_format_commit_leaves_nothing_allocated() {
    let mut recorder = Recorder::new(Some(param("out.h264")));
    let mut machine = Machine::new(&[]);
    machine.fail_kind = Some(|request| {
        matches!(request, Request::CommitFormat { port, .. } if port.component == ComponentKind::Encoder)
    });
    let result = machine.drive(&mut recorder);
    assert_eq!(result, Err((VideoErrorKind::FormatCommit, 7)));
    assert_eq!((machine.components, machine.pools, machine.connections), (0, 0, 0));
    assert!(!machine.calls.iter().any(|call| matches!(call, Request::CreateConnection { .. })));
}

#[test]
fn every_failing_init_step_leaves_nothing_allocated() {
    let matchers: Vec<(fn(&Request) -> bool, VideoErrorKind)> = vec![
        (|r| matches!(r, Request::CreateComponent(ComponentKind::Camera)), VideoErrorKind::ComponentCreate),
        (|r| matches!(r, Request::EnablePort(p) if p.direction == PortDirection::Control), VideoErrorKind::ControlPortEnable),
        (|r| matches!(r, Request::CommitFormat { port, .. } if port.component == ComponentKind::Camera && port.index == 1), VideoErrorKind::FormatCommit),
        (|r| matches!(r, Request::EnableComponent(ComponentKind::Camera)), VideoErrorKind::ComponentEnable),
        (|r| matches!(r, Request::CreateComponent(ComponentKind::Encoder)), VideoErrorKind::ComponentCreate),
        (|r| matches!(r, Request::EnableComponent(ComponentKind::Encoder)), VideoErrorKind::ComponentEnable),
        (|r| matches!(r, Request::CreatePool { .. }), VideoErrorKind::PoolCreate),
        (|r| matches!(r, Request::CreateConnection { .. }), VideoErrorKind::ConnectionCreate),
        (|r| matches!(r, Request::EnableConnection), VideoErrorKind::ConnectionEnable),
        (|r| matches!(r, Request::EnablePort(p) if p.direction == PortDirection::Output), VideoErrorKind::OutputPortEnable),
        (|r| matches!(r, Request::SendBuffer { buffer: 1, .. }), VideoErrorKind::BufferSubmit),
        (|r| matches!(r, Request::SetCapture(_)), VideoErrorKind::CaptureStart),
    ];
    for (matcher, kind) in matchers {
        let mut recorder = Recorder::new(Some(param("out.h264")));
        let mut machine = Machine::new(&[]);
        machine.fail_kind = Some(matcher);
        let result = machine.drive(&mut recorder);
        assert_eq!(result.map_err(|e| e.0), Err(kind));
        assert_eq!((machine.components, machine.pools, machine.connections), (0, 0, 0), "{:?}", kind);
        assert_eq!(recorder.phase(), RecorderPhase::Finished);
    }
}

#[test]
fn failed_write_ends_the_session_with_an_output_file_error() {
    let mut recorder = Recorder::new(Some(param("out.h264")));
    let mut machine = Machine::new(&[100, 200, 0]);
    machine.fail = Some(Request::WriteOutputFile);
    let result = machine.drive(&mut recorder);
    assert_eq!(result, Err((VideoErrorKind::OutputFileWrite, MMAL_EINVAL)));
    assert!(machine.file.is_empty());
    assert_eq!((machine.components, machine.pools, machine.connections), (0, 0, 0));
}

#[test]
fn encoder_output_format_is_h264_at_the_requested_bit_rate() {
    let mut recorder = Recorder::new(Some(param("out.h264")));
    let mut machine = Machine::new(&[0]);
    assert!(machine.drive(&mut recorder).is_ok());
    let commit = machine
        .calls
        .iter()
        .find_map(|call| match call {
            Request::CommitFormat { port, template, settings } if port.component == ComponentKind::Encoder => {
                Some((*template, *settings))
            }
            _ => None,
        })
        .expect("the encoder's format was never committed");
    assert_eq!(
        commit.0,
        Some(PortRef { component: ComponentKind::Encoder, direction: PortDirection::Input, index: 0 })
    );
    assert_eq!(commit.1.format.encoding, MMAL_ENCODING_H264);
    assert_eq!(commit.1.format.bitrate, 17000000);
    assert_eq!(commit.1.buffer_size, 65536);
    assert_eq!(commit.1.buffer_num, 3);
}

#[test]
fn run_on_a_finished_recorder_repeats_the_result() {
    let mut recorder = Recorder::new(Some(param("out.h264")));
    let mut machine = Machine::new(&[10, 0]);
    assert!(machine.drive(&mut recorder).is_ok());
    let calls = machine.calls.len();
    match recorder.run() {
        Step::Done(Ok(res)) => assert_eq!(res.output_file_path, "out.h264"),
        other => panic!("unexpected step {:?}", other),
    }
    match recorder.resume(&Reply::Status(0)) {
        Step::Done(Ok(res)) => assert_eq!(res.output_file_path, "out.h264"),
        other => panic!("unexpected step {:?}", other),
    }
    assert_eq!(machine.calls.len(), calls);
}

#[test]
fn resume_without_a_session_is_an_error() {
    let mut recorder = Recorder::new(Some(param("out.h264")));
    match recorder.resume(&Reply::Status(0)) {
        Step::Done(Err(error)) => {
            assert_eq!(error.kind, VideoErrorKind::ChannelReceive);
            assert_eq!(error.mmal_status, MMAL_EINVAL);
        }
        other => panic!("unexpected step {:?}", other),
    }
    assert_eq!(recorder.phase(), RecorderPhase::Idle);
}

#[test]
fn callback_error_ends_the_session() {
    let mut recorder = Recorder::new(Some(param("out.h264")));
    let mut machine = Machine::new(&[]);
    let mut step = recorder.run();
    loop {
        match step {
            Step::Call(Request::AwaitCallback) => break,
            Step::Call(request) => {
                let reply = machine.perform(&mut recorder, request);
                step = recorder.resume(&reply);
            }
            other => panic!("the session ended early: {:?}", other),
        }
    }
    assert_eq!(recorder.phase(), RecorderPhase::Draining);
    match recorder.output_callback(true, 99, &[1, 2, 3]) {
        Step::Done(Err(error)) => assert_eq!(error.kind, VideoErrorKind::StrayBuffer),
        other => panic!("unexpected step {:?}", other),
    }
    let mut step = recorder.resume(&Reply::Status(0));
    let result = loop {
        match step {
            Step::Call(request) => {
                let reply = machine.perform(&mut recorder, request);
                step = recorder.resume(&reply);
            }
            Step::Done(result) => break result,
        }
    };
    match result {
        Err(error) => {
            assert_eq!(error.kind, VideoErrorKind::StrayBuffer);
            assert_eq!(error.mmal_status, MMAL_EINVAL);
        }
        Ok(_) => panic!("the session succeeded"),
    }
    assert_eq!((machine.components, machine.pools, machine.connections), (0, 0, 0));
    assert!(machine.file.is_empty());
}

#[test]
fn run_during_a_session_hands_out_the_call_in_flight() {
    let mut recorder = Recorder::new(Some(param("out.h264")));
    match recorder.run() {
        Step::Call(call) => assert_eq!(call, Request::CreateOutputFile),
        other => panic!("unexpected step {:?}", other),
    }
    match recorder.run() {
        Step::Call(call) => assert_eq!(call, Request::CreateOutputFile),
        other => panic!("unexpected step {:?}", other),
    }
    assert_eq!(recorder.phase(), RecorderPhase::CreatingFile);
    assert_eq!(recorder.awaiting(), Some(Request::CreateOutputFile));
    match recorder.output_callback(true, 0, &[1]) {
        Step::Done(Err(error)) => assert_eq!(error.kind, VideoErrorKind::StrayBuffer),
        other => panic!("unexpected step {:?}", other),
    }
    match recorder.output_callback_resume(&Reply::Status(0)) {
        Step::Done(Ok(())) => {}
        other => panic!("unexpected step {:?}", other),
    }
}

#[test]
fn session_error_about_the_file_names_the_file() {
    let mut recorder = Recorder::new(Some(param("already/there.h264")));
    let step = recorder.run();
    assert!(matches!(step, Step::Call(Request::CreateOutputFile)));
    match recorder.resume(&Reply::Outcome(false)) {
        Step::Done(Err(error)) => {
            assert_eq!(error.kind, VideoErrorKind::OutputFileCreate);
            assert_eq!(error.mmal_status, MMAL_EINVAL);
            assert_eq!(error.message, "Failed to create the output file `already/there.h264`");
        }
        other => panic!("unexpected step {:?}", other),
    }
    match recorder.run() {
        Step::Done(Err(error)) => {
            assert_eq!(error.message, "Failed to create the output file `already/there.h264`");
        }
        other => panic!("unexpected step {:?}", other),
    }
}

#[test]
fn session_error_about_a_write_names_the_file() {
    let mut recorder = Recorder::new(Some(param("out.h264")));
    let mut machine = Machine::new(&[100, 0]);
    machine.fail = Some(Request::WriteOutputFile);
    let mut step = recorder.run();
    let error = loop {
        match step {
            Step::Call(request) => {
                let reply = machine.perform(&mut recorder, request);
                step = recorder.resume(&reply);
            }
            Step::Done(Err(error)) => break error,
            Step::Done(Ok(_)) => panic!("the session succeeded"),
        }
    };
    assert_eq!(error.kind, VideoErrorKind::OutputFileWrite);
    assert_eq!(error.mmal_status, MMAL_EINVAL);
    assert_eq!(error.message, "Failed to write the output file `out.h264`");
}

#[test]
fn session_error_of_the_hardware_names_the_call() {
    let mut recorder = Recorder::new(Some(param("out.h264")));
    let mut machine = Machine::new(&[]);
    machine.fail = Some(Request::EnableConnection);
    let mut step = recorder.run();
    let error = loop {
        match step {
            Step::Call(request) => {
                let reply = machine.perform(&mut recorder, request);
                step = recorder.resume(&reply);
            }
            Step::Done(Err(error)) => break error,
            Step::Done(Ok(_)) => panic!("the session succeeded"),
        }
    };
    assert_eq!(error.kind, VideoErrorKind::ConnectionEnable);
    assert_eq!(error.mmal_status, 7);
    assert_eq!(error.message, "Failed to invoke `mmal_connection_enable`");
}

#[test]
fn session_error_about_the_file_says_what_the_file_system_said() {
    let mut recorder = Recorder::new(Some(param("out.h264")));
    assert!(matches!(recorder.run(), Step::Call(Request::CreateOutputFile)));
    match recorder.resume(&Reply::Failure("AlreadyExists".to_string())) {
        Step::Done(Err(error)) => {
            assert_eq!(error.kind, VideoErrorKind::OutputFileCreate);
            assert_eq!(error.mmal_status, MMAL_EINVAL);
            assert_eq!(error.message, "Failed to create the output file `out.h264`: AlreadyExists");
        }
        other => panic!("unexpected step {:?}", other),
    }
    assert_eq!(recorder.phase(), RecorderPhase::Finished);
}

#[test]
fn session_error_about_a_write_keeps_its_words_through_the_teardown() {
    let mut recorder = Recorder::new(Some(param("out.h264")));
    let mut machine = Machine::new(&[100, 0]);
    let mut step = recorder.run();
    let error = loop {
        match step {
            Step::Call(Request::WriteOutputFile) => {
                step = recorder.resume(&Reply::Failure("disk full".to_string()));
            }
            Step::Call(Request::SyncOutputFile) => {
                step = recorder.resume(&Reply::Failure("sync failed".to_string()));
            }
            Step::Call(request) => {
                let reply = machine.perform(&mut recorder, request);
                step = recorder.resume(&reply);
            }
            Step::Done(Err(error)) => break error,
            Step::Done(Ok(_)) => panic!("the session succeeded"),
        }
    };
    assert_eq!(error.kind, VideoErrorKind::OutputFileWrite);
    assert_eq!(error.mmal_status, MMAL_EINVAL);
    assert_eq!(error.message, "Failed to write the output file `out.h264`: disk full");
    assert_eq!((machine.components, machine.pools, machine.connections), (0, 0, 0));
}

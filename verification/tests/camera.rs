use rpi_video_rs::camera_component::{crop_extent, CameraComponent};
use rpi_video_rs::mmal::{
    CameraConfig, ComponentKind, ComponentPorts, ComponentState, Port, PortDirection, PortRef,
    Reply, Request, Step, TimestampMode, VideoFormat, MMAL_EINVAL, MMAL_ENCODING_I420,
    MMAL_ENCODING_OPAQUE,
};
use rpi_video_rs::video_error::VideoErrorKind;
use rpi_video_rs::video_output_port::VideoOutputPort;
use rpi_video_rs::video_param::VideoParam;

fn camera_param() -> VideoParam {
    VideoParam {
        width: 1280,
        height: 720,
        bit_rate: 4000000,
        frame_rate: 25,
        max_seconds: 5,
        output_file_path: "camera.h264".to_string(),
    }
}

fn camera_port(buffer_num: u32, bitrate: u32) -> Port {
    Port {
        format: VideoFormat {
            encoding: 1,
            encoding_variant: 2,
            bitrate,
            width: 3,
            height: 4,
            crop_x: 5,
            crop_y: 6,
            crop_width: 7,
            crop_height: 8,
            frame_rate_num: 9,
            frame_rate_den: 10,
        },
        buffer_num,
        buffer_size: 11,
        buffer_num_min: 12,
        buffer_num_recommended: 13,
        buffer_size_min: 14,
        buffer_size_recommended: 15,
        is_enabled: false,
    }
}

fn committed(port: Port) -> Port {
    Port {
        format: VideoFormat {
            encoding: MMAL_ENCODING_OPAQUE,
            encoding_variant: MMAL_ENCODING_I420,
            bitrate: port.format.bitrate,
            width: 1280,
            height: 720,
            crop_x: 0,
            crop_y: 0,
            crop_width: 1280,
            crop_height: 720,
            frame_rate_num: 25,
            frame_rate_den: 1,
        },
        buffer_num: if port.buffer_num < 3 { 3 } else { port.buffer_num },
        ..port
    }
}

fn camera_ports() -> ComponentPorts {
    ComponentPorts {
        input: Vec::new(),
        output: vec![camera_port(1, 100), camera_port(5, 200), camera_port(3, 300)],
    }
}

fn created() -> Reply {
    Reply::Component { status: 0, ports: Some(camera_ports()) }
}

fn output(index: usize) -> PortRef {
    PortRef { component: ComponentKind::Camera, direction: PortDirection::Output, index }
}

fn control() -> PortRef {
    PortRef { component: ComponentKind::Camera, direction: PortDirection::Control, index: 0 }
}

fn call(step: Step<()>) -> Request {
    match step {
        Step::Call(request) => request,
        other => panic!("expected a call, got {:?}", other),
    }
}

fn done(step: Step<()>) {
    match step {
        Step::Done(Ok(())) => {}
        other => panic!("expected success, got {:?}", other),
    }
}

fn failed(step: Step<()>) -> (VideoErrorKind, u32) {
    match step {
        Step::Done(Err(error)) => (error.kind, error.mmal_status),
        other => panic!("expected an error, got {:?}", other),
    }
}

fn enabled_camera() -> CameraComponent {
    let mut camera = CameraComponent::new(camera_param());
    let mut step = camera.init();
    loop {
        match step {
            Step::Call(Request::CreateComponent(_)) => step = camera.resume(&created()),
            Step::Call(_) => step = camera.resume(&Reply::Status(0)),
            Step::Done(Ok(())) => return camera,
            Step::Done(Err(error)) => panic!("the camera did not come up: {:?}", error),
        }
    }
}

#[test]
fn new_camera_is_uninitialized() {
    let camera = CameraComponent::new(camera_param());
    assert_eq!(camera.state(), ComponentState::Uninitialized);
    assert_eq!(camera.awaiting(), None);
    assert!(!camera.validate_component());
}

#[test]
fn camera_init_makes_its_calls_in_order() {
    let mut camera = CameraComponent::new(camera_param());
    assert_eq!(call(camera.init()), Request::CreateComponent(ComponentKind::Camera));
    assert_eq!(call(camera.resume(&created())), Request::EnablePort(control()));
    assert_eq!(camera.state(), ComponentState::Created);
    let config = CameraConfig {
        max_stills_w: 1280,
        max_stills_h: 720,
        stills_yuv422: 0,
        one_shot_stills: 0,
        max_preview_video_w: 1280,
        max_preview_video_h: 720,
        num_preview_video_frames: 3,
        stills_capture_circular_buffer_height: 0,
        fast_preview_resume: 0,
        use_stc_timestamp: TimestampMode::ResetStc,
    };
    assert_eq!(call(camera.resume(&Reply::Status(0))), Request::SetCameraConfig(config));
    assert_eq!(camera.state(), ComponentState::ControlEnabled);
    assert_eq!(
        call(camera.resume(&Reply::Status(0))),
        Request::CommitFormat { port: output(2), template: None, settings: committed(camera_port(3, 300)) }
    );
    assert_eq!(camera.state(), ComponentState::Configured);
    assert_eq!(
        call(camera.resume(&Reply::Status(0))),
        Request::CommitFormat { port: output(0), template: None, settings: committed(camera_port(1, 100)) }
    );
    assert_eq!(
        call(camera.resume(&Reply::Status(0))),
        Request::CommitFormat { port: output(1), template: None, settings: committed(camera_port(5, 200)) }
    );
    assert_eq!(
        call(camera.resume(&Reply::Status(0))),
        Request::EnableComponent(ComponentKind::Camera)
    );
    done(camera.resume(&Reply::Status(0)));
    assert_eq!(camera.state(), ComponentState::Enabled);
    assert_eq!(camera.awaiting(), None);
    assert_eq!(camera.ports().preview, committed(camera_port(1, 100)));
    assert_eq!(camera.ports().video, committed(camera_port(5, 200)));
    assert_eq!(camera.ports().capture, committed(camera_port(3, 300)));
}

#[test]
fn camera_port_gets_at_least_three_buffers() {
    let camera = CameraComponent::new(camera_param());
    assert_eq!(camera.set_port_format(camera_port(0, 0)).buffer_num, 3);
    assert_eq!(camera.set_port_format(camera_port(2, 0)).buffer_num, 3);
    assert_eq!(camera.set_port_format(camera_port(3, 0)).buffer_num, 3);
    assert_eq!(camera.set_port_format(camera_port(4, 0)).buffer_num, 4);
    assert_eq!(camera.set_port_format(camera_port(u32::MAX, 0)).buffer_num, u32::MAX);
}

#[test]
fn camera_port_format_keeps_what_it_does_not_set() {
    let camera = CameraComponent::new(camera_param());
    let settings = camera.set_port_format(camera_port(7, 4242));
    assert_eq!(settings, committed(camera_port(7, 4242)));
    assert_eq!(settings.format.bitrate, 4242);
    assert_eq!(settings.buffer_size, 11);
    assert_eq!(settings.buffer_size_recommended, 15);
}

#[test]
fn crop_extent_reads_the_same_bits_as_signed() {
    assert_eq!(crop_extent(0), 0);
    assert_eq!(crop_extent(1920), 1920);
    assert_eq!(crop_extent(0x7fff_ffff), i32::MAX);
    assert_eq!(crop_extent(0x8000_0000), i32::MIN);
    assert_eq!(crop_extent(u32::MAX), -1);
}

#[test]
fn camera_failed_commit_destroys_the_component() {
    let mut camera = CameraComponent::new(camera_param());
    call(camera.init());
    call(camera.resume(&created()));
    call(camera.resume(&Reply::Status(0)));
    call(camera.resume(&Reply::Status(0)));
    call(camera.resume(&Reply::Status(0)));
    assert_eq!(
        call(camera.resume(&Reply::Status(7))),
        Request::DestroyComponent(ComponentKind::Camera)
    );
    assert_eq!(failed(camera.resume(&Reply::Status(0))), (VideoErrorKind::FormatCommit, 7));
    assert_eq!(camera.state(), ComponentState::Uninitialized);
    assert_eq!(camera.awaiting(), None);
    assert_eq!(camera.ports().capture, committed(camera_port(3, 300)));
    assert_eq!(camera.ports().preview, camera_port(1, 100));
}

#[test]
fn camera_every_failing_step_rolls_back() {
    let kinds = [
        VideoErrorKind::ControlPortEnable,
        VideoErrorKind::ComponentEnable,
        VideoErrorKind::FormatCommit,
        VideoErrorKind::FormatCommit,
        VideoErrorKind::FormatCommit,
        VideoErrorKind::ComponentEnable,
    ];
    for failing in [0usize, 2, 3, 4, 5] {
        let mut camera = CameraComponent::new(camera_param());
        call(camera.init());
        let mut step = camera.resume(&created());
        for index in 0..6 {
            if index == failing {
                assert_eq!(
                    call(camera.resume(&Reply::Status(9))),
                    Request::DestroyComponent(ComponentKind::Camera)
                );
                step = camera.resume(&Reply::Status(0));
                break;
            }
            step = camera.resume(&Reply::Status(if index == 1 { 5 } else { 0 }));
        }
        assert_eq!(failed(step), (kinds[failing], 9));
        assert!(!camera.validate_component());
    }
}

#[test]
fn camera_ignores_the_status_of_the_configuration() {
    let mut camera = CameraComponent::new(camera_param());
    call(camera.init());
    call(camera.resume(&created()));
    call(camera.resume(&Reply::Status(0)));
    match call(camera.resume(&Reply::Status(3))) {
        Request::CommitFormat { port, .. } => assert_eq!(port, output(2)),
        other => panic!("unexpected call {:?}", other),
    }
}

#[test]
fn camera_creation_without_a_component_fails_at_once() {
    let mut camera = CameraComponent::new(camera_param());
    call(camera.init());
    let step = camera.resume(&Reply::Component { status: 1, ports: None });
    assert_eq!(failed(step), (VideoErrorKind::ComponentCreate, 1));
    assert_eq!(camera.state(), ComponentState::Uninitialized);
}

#[test]
fn camera_creation_without_its_ports_is_undone() {
    let mut camera = CameraComponent::new(camera_param());
    call(camera.init());
    let ports = ComponentPorts { input: Vec::new(), output: vec![camera_port(1, 0), camera_port(1, 0)] };
    let step = camera.resume(&Reply::Component { status: 0, ports: Some(ports) });
    assert_eq!(call(step), Request::DestroyComponent(ComponentKind::Camera));
    assert_eq!(failed(camera.resume(&Reply::Status(0))), (VideoErrorKind::ComponentCreate, 0));
    assert_eq!(camera.state(), ComponentState::Uninitialized);
}

#[test]
fn camera_reply_of_another_shape_counts_as_no_component() {
    let mut camera = CameraComponent::new(camera_param());
    call(camera.init());
    assert_eq!(failed(camera.resume(&Reply::Status(0))), (VideoErrorKind::ComponentCreate, 0));
    call(camera.init());
    assert_eq!(
        failed(camera.resume(&Reply::Outcome(false))),
        (VideoErrorKind::ComponentCreate, MMAL_EINVAL)
    );
}

#[test]
fn camera_disable_before_init_changes_nothing() {
    let mut camera = CameraComponent::new(camera_param());
    done(camera.disable());
    done(camera.disable());
    assert_eq!(camera.state(), ComponentState::Uninitialized);
    assert_eq!(camera.awaiting(), None);
}

#[test]
fn camera_disable_twice_disables_once() {
    let mut camera = enabled_camera();
    assert_eq!(call(camera.disable()), Request::DisableComponent(ComponentKind::Camera));
    done(camera.resume(&Reply::Status(4)));
    assert_eq!(camera.state(), ComponentState::Disabled);
    done(camera.disable());
    assert_eq!(camera.state(), ComponentState::Disabled);
    assert_eq!(camera.awaiting(), None);
}

#[test]
fn camera_destroy_twice_destroys_once() {
    let mut camera = enabled_camera();
    assert_eq!(call(camera.destroy()), Request::DestroyComponent(ComponentKind::Camera));
    done(camera.resume(&Reply::Status(0)));
    assert_eq!(camera.state(), ComponentState::Destroyed);
    done(camera.destroy());
    assert_eq!(camera.state(), ComponentState::Destroyed);
    let mut fresh = CameraComponent::new(camera_param());
    done(fresh.destroy());
    assert_eq!(fresh.state(), ComponentState::Uninitialized);
}

#[test]
fn camera_init_again_destroys_the_old_component_first() {
    let mut camera = enabled_camera();
    assert_eq!(call(camera.init()), Request::DestroyComponent(ComponentKind::Camera));
    assert_eq!(
        call(camera.resume(&Reply::Status(0))),
        Request::CreateComponent(ComponentKind::Camera)
    );
    assert_eq!(camera.state(), ComponentState::Uninitialized);
}

#[test]
fn camera_hands_out_the_call_in_flight_again() {
    let mut camera = CameraComponent::new(camera_param());
    let first = call(camera.init());
    assert_eq!(call(camera.init()), first);
    assert_eq!(call(camera.disable()), first);
    assert_eq!(call(camera.destroy()), first);
    assert_eq!(call(camera.enable_capture()), first);
    assert_eq!(call(camera.disable_output_port()), first);
    assert_eq!(camera.awaiting(), Some(first));
}

#[test]
fn camera_resume_without_a_call_changes_nothing() {
    let mut camera = enabled_camera();
    done(camera.resume(&Reply::Status(9)));
    assert_eq!(camera.state(), ComponentState::Enabled);
}

#[test]
fn camera_capture_starts_on_the_video_port() {
    let mut camera = enabled_camera();
    assert_eq!(call(camera.enable_capture()), Request::SetCapture(output(1)));
    done(camera.resume(&Reply::Status(0)));
    assert_eq!(camera.state(), ComponentState::Enabled);
}

#[test]
fn camera_capture_that_does_not_start_leaves_the_camera_up() {
    let mut camera = enabled_camera();
    call(camera.enable_capture());
    assert_eq!(failed(camera.resume(&Reply::Status(6))), (VideoErrorKind::CaptureStart, 6));
    assert_eq!(camera.state(), ComponentState::Enabled);
    assert_eq!(camera.awaiting(), None);
}

#[test]
fn camera_cannot_capture_before_it_is_enabled() {
    let mut camera = CameraComponent::new(camera_param());
    assert_eq!(failed(camera.enable_capture()), (VideoErrorKind::CaptureStart, MMAL_EINVAL));
    assert_eq!(camera.awaiting(), None);
}

#[test]
fn camera_video_port_is_its_output_port() {
    let mut camera = enabled_camera();
    assert_eq!(camera.raw_output_port(), output(1));
    done(camera.disable_output_port());
}

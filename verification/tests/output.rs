use rpi_video_rs::mmal::{ComponentKind, PortDirection, PortRef, Reply, Request, Step, MMAL_EINVAL};
use rpi_video_rs::video_error::{VideoError, VideoErrorKind};
use rpi_video_rs::video_output::channel::Channel;
use rpi_video_rs::video_output::output_buffer::OutputBuffer;
use rpi_video_rs::video_output::output_callback_user_data::OutputCallbackUserData;
use rpi_video_rs::video_output::output_processor::{
    output_callback, output_callback_resume, OutputProcessor, Taken,
};
use rpi_video_rs::video_pool::BufferPool;
use std::cell::RefCell;

fn out() -> PortRef {
    PortRef { component: ComponentKind::Encoder, direction: PortDirection::Output, index: 0 }
}

fn call(step: Step<()>) -> Request {
    match step {
        Step::Call(request) => request,
        other => panic!("expected a call, got {:?}", other),
    }
}

fn done(step: Step<()>) {
    match step {
        Step::Done(Ok(())) => {}
        other => panic!("expected success, got {:?}", other),
    }
}

fn failed(step: Step<()>) -> (VideoErrorKind, u32) {
    match step {
        Step::Done(Err(error)) => (error.kind, error.mmal_status),
        other => panic!("expected an error, got {:?}", other),
    }
}

fn record(taken: Taken) -> Vec<u8> {
    match taken {
        Taken::Record(buffer) => buffer.raw_data().to_vec(),
        other => panic!("expected a record, got {:?}", other),
    }
}

/// A pool of `buffer_num` buffers, all of them with the hardware.
fn pool_in_flight(buffer_num: u32) -> BufferPool {
    let mut pool = BufferPool::new(buffer_num, 64);
    while pool.get().is_some() {}
    pool
}

#[test]
fn output_buffer_owns_a_copy() {
    let mut source = vec![1u8, 2, 3];
    let buffer = OutputBuffer::new(&source);
    source[0] = 9;
    assert_eq!(buffer.raw_data(), &[1u8, 2, 3][..]);
    assert_eq!(OutputBuffer::new(&[]).raw_data().len(), 0);
}

#[test]
fn channel_is_first_in_first_out() {
    let mut channel = Channel::new(3);
    assert_eq!(channel.capacity(), 3);
    assert_eq!(channel.len(), 0);
    assert!(channel.recv().is_none());
    assert!(channel.send(Some(OutputBuffer::new(&[1]))).is_ok());
    assert!(channel.send(Some(OutputBuffer::new(&[2, 2]))).is_ok());
    assert!(channel.send(None).is_ok());
    assert_eq!(channel.len(), 3);
    assert_eq!(channel.recv().unwrap().unwrap().raw_data(), &[1u8][..]);
    assert_eq!(channel.recv().unwrap().unwrap().raw_data(), &[2u8, 2][..]);
    assert!(channel.recv().unwrap().is_none());
    assert!(channel.recv().is_none());
}

#[test]
fn full_channel_hands_the_record_back() {
    let mut channel = Channel::new(1);
    assert!(channel.send(Some(OutputBuffer::new(&[1]))).is_ok());
    match channel.send(Some(OutputBuffer::new(&[2]))) {
        Err(Some(back)) => assert_eq!(back.raw_data(), &[2u8][..]),
        _ => panic!("a full channel took a record"),
    }
    assert_eq!(channel.len(), 1);
    assert_eq!(channel.recv().unwrap().unwrap().raw_data(), &[1u8][..]);
    assert!(channel.send(None).is_ok());
    let mut none = Channel::new(0);
    assert!(none.send(None).is_err());
}

#[test]
fn callback_passes_data_on_and_sends_the_next_buffer() {
    let mut pool = pool_in_flight(3);
    let mut user_data = OutputCallbackUserData::new(out(), &pool);
    let step = output_callback(&mut user_data, &mut pool, true, 1, &[7, 8, 9]);
    assert_eq!(call(step), Request::SendBuffer { port: out(), buffer: 1 });
    assert_eq!(user_data.len(), 1);
    assert_eq!(pool.len(), 0);
    assert!(pool.in_flight(1));
    done(output_callback_resume(&mut user_data, &mut pool, &Reply::Status(0)));
    assert!(user_data.live());
    assert_eq!(user_data.status().awaiting, None);
    assert_eq!(user_data.recv().unwrap().unwrap().raw_data(), &[7u8, 8, 9][..]);
}

#[test]
fn callback_resubmits_the_buffer_that_has_been_free_the_longest() {
    let mut pool = BufferPool::new(3, 64);
    assert_eq!(pool.get(), Some(0));
    let mut user_data = OutputCallbackUserData::new(out(), &pool);
    let step = output_callback(&mut user_data, &mut pool, true, 0, &[1]);
    assert_eq!(call(step), Request::SendBuffer { port: out(), buffer: 1 });
    assert_eq!(pool.len(), 2);
    assert_eq!(pool.get(), Some(2));
    assert_eq!(pool.get(), Some(0));
}

#[test]
fn callback_keeps_the_buffer_when_the_port_is_disabled() {
    let mut pool = pool_in_flight(2);
    let mut user_data = OutputCallbackUserData::new(out(), &pool);
    done(output_callback(&mut user_data, &mut pool, false, 0, &[1, 2]));
    assert_eq!(pool.len(), 1);
    assert!(!pool.in_flight(0));
    assert_eq!(user_data.len(), 1);
}

#[test]
fn callback_marks_the_end_of_the_stream_once() {
    let mut pool = pool_in_flight(3);
    let mut user_data = OutputCallbackUserData::new(out(), &pool);
    done(output_callback(&mut user_data, &mut pool, true, 0, &[]));
    assert!(user_data.status().end_of_stream);
    assert!(!user_data.live());
    assert_eq!(user_data.len(), 1);
    assert_eq!(pool.len(), 0);
    done(output_callback(&mut user_data, &mut pool, true, 1, &[]));
    assert_eq!(user_data.len(), 1);
    done(output_callback(&mut user_data, &mut pool, true, 2, &[5, 5]));
    assert_eq!(user_data.len(), 1);
    assert_eq!(pool.len(), 1);
    assert!(user_data.recv().unwrap().is_none());
    assert!(user_data.recv().is_none());
}

#[test]
fn callback_brings_back_one_buffer_for_each_call_with_data() {
    let mut pool = pool_in_flight(4);
    let mut user_data = OutputCallbackUserData::new(out(), &pool);
    let mut back = 0;
    for (buffer, size) in [(0u32, 10usize), (1, 20), (2, 0), (3, 5)] {
        let before = pool.len();
        done(output_callback(&mut user_data, &mut pool, false, buffer, &vec![0u8; size]));
        back += pool.len() - before;
    }
    assert_eq!(back, 3);
    assert_eq!(pool.len(), 3);
    assert!(pool.in_flight(2));
}

#[test]
fn callback_reports_a_buffer_that_is_not_in_flight() {
    let mut pool = BufferPool::new(2, 64);
    let mut user_data = OutputCallbackUserData::new(out(), &pool);
    let step = output_callback(&mut user_data, &mut pool, true, 0, &[1]);
    assert_eq!(failed(step), (VideoErrorKind::StrayBuffer, MMAL_EINVAL));
    assert_eq!(pool.len(), 2);
    assert_eq!(user_data.status().failure, Some((VideoErrorKind::StrayBuffer, MMAL_EINVAL)));
    let step = output_callback(&mut user_data, &mut pool, true, 9, &[1]);
    done(step);
    assert_eq!(user_data.status().failure, Some((VideoErrorKind::StrayBuffer, MMAL_EINVAL)));
    assert_eq!(user_data.len(), 1);
}

#[test]
fn callback_reports_a_full_channel() {
    let mut pool = pool_in_flight(1);
    let mut user_data = OutputCallbackUserData::new(out(), &pool);
    done(output_callback(&mut user_data, &mut pool, false, 0, &[1]));
    assert_eq!(pool.get(), Some(0));
    let step = output_callback(&mut user_data, &mut pool, true, 0, &[2]);
    assert_eq!(failed(step), (VideoErrorKind::ChannelSend, MMAL_EINVAL));
    assert_eq!(user_data.len(), 1);
    assert_eq!(pool.len(), 1);
    assert!(!user_data.live());
}

#[test]
fn callback_reports_a_buffer_that_the_port_refuses() {
    let mut pool = pool_in_flight(2);
    let mut user_data = OutputCallbackUserData::new(out(), &pool);
    let step = output_callback(&mut user_data, &mut pool, true, 1, &[1]);
    assert_eq!(call(step), Request::SendBuffer { port: out(), buffer: 1 });
    let step = output_callback_resume(&mut user_data, &mut pool, &Reply::Status(14));
    assert_eq!(failed(step), (VideoErrorKind::BufferSubmit, 14));
    assert_eq!(pool.len(), 1);
    assert!(!pool.in_flight(1));
    assert_eq!(user_data.status().failure, Some((VideoErrorKind::BufferSubmit, 14)));
    done(output_callback_resume(&mut user_data, &mut pool, &Reply::Status(14)));
}

#[test]
fn processor_sets_up_the_output() {
    let mut encoder = rpi_video_rs::encoder_component::EncoderComponent::new(
        rpi_video_rs::video_param::VideoParam {
            width: 1,
            height: 1,
            bit_rate: 1,
            frame_rate: 1,
            max_seconds: 1,
            output_file_path: "p.h264".to_string(),
        },
    );
    let mut processor = OutputProcessor::new();
    assert!(!processor.validate_buffer_receiver());
    assert!(!processor.enabled());
    assert_eq!(
        failed(processor.init(&encoder, &encoder)),
        (VideoErrorKind::PoolExhausted, MMAL_EINVAL)
    );
    call(encoder.init());
    let port = rpi_video_rs::mmal::Port {
        format: rpi_video_rs::mmal::VideoFormat {
            encoding: 0,
            encoding_variant: 0,
            bitrate: 0,
            width: 0,
            height: 0,
            crop_x: 0,
            crop_y: 0,
            crop_width: 0,
            crop_height: 0,
            frame_rate_num: 0,
            frame_rate_den: 0,
        },
        buffer_num: 0,
        buffer_size: 0,
        buffer_num_min: 2,
        buffer_num_recommended: 5,
        buffer_size_min: 1,
        buffer_size_recommended: 1,
        is_enabled: false,
    };
    let ports = rpi_video_rs::mmal::ComponentPorts { input: vec![port], output: vec![port] };
    call(encoder.resume(&Reply::Component { status: 0, ports: Some(ports) }));
    call(encoder.resume(&Reply::Status(0)));
    call(encoder.resume(&Reply::Status(0)));
    done(encoder.resume(&Reply::Outcome(true)));
    assert_eq!(call(processor.init(&encoder, &encoder)), Request::EnablePort(out()));
    assert!(processor.validate_buffer_receiver());
    assert_eq!(failed(processor.resume(&Reply::Status(3))), (VideoErrorKind::OutputPortEnable, 3));
    assert!(!processor.enabled());
    done(processor.disable(&encoder));
    call(processor.init(&encoder, &encoder));
    done(processor.resume(&Reply::Status(0)));
    assert!(processor.enabled());
    assert_eq!(processor.awaiting(), None);
    assert_eq!(call(processor.disable(&encoder)), Request::DisablePort(out()));
    done(processor.resume(&Reply::Status(0)));
    assert!(!processor.enabled());
    done(processor.disable(&encoder));
}

fn processor_with_pool(buffer_num: u32) -> (OutputProcessor, BufferPool) {
    let mut encoder = rpi_video_rs::encoder_component::EncoderComponent::new(
        rpi_video_rs::video_param::VideoParam {
            width: 1,
            height: 1,
            bit_rate: 1,
            frame_rate: 1,
            max_seconds: 1,
            output_file_path: "p.h264".to_string(),
        },
    );
    let port = rpi_video_rs::mmal::Port {
        format: rpi_video_rs::mmal::VideoFormat {
            encoding: 0,
            encoding_variant: 0,
            bitrate: 0,
            width: 0,
            height: 0,
            crop_x: 0,
            crop_y: 0,
            crop_width: 0,
            crop_height: 0,
            frame_rate_num: 0,
            frame_rate_den: 0,
        },
        buffer_num: 0,
        buffer_size: 0,
        buffer_num_min: buffer_num,
        buffer_num_recommended: buffer_num,
        buffer_size_min: 64,
        buffer_size_recommended: 64,
        is_enabled: false,
    };
    let ports = rpi_video_rs::mmal::ComponentPorts { input: vec![port], output: vec![port] };
    call(encoder.init());
    call(encoder.resume(&Reply::Component { status: 0, ports: Some(ports) }));
    call(encoder.resume(&Reply::Status(0)));
    call(encoder.resume(&Reply::Status(0)));
    done(encoder.resume(&Reply::Outcome(true)));
    let mut processor = OutputProcessor::new();
    call(processor.init(&encoder, &encoder));
    done(processor.resume(&Reply::Status(0)));
    (processor, pool_in_flight(buffer_num))
}

#[test]
fn consumer_takes_the_records_in_the_order_of_the_callbacks() {
    let (mut processor, mut pool) = processor_with_pool(4);
    assert!(matches!(processor.take(), Taken::Pending));
    done(processor.callback(&mut pool, false, 2, &[1, 1]));
    done(processor.callback(&mut pool, false, 0, &[2]));
    done(processor.callback(&mut pool, false, 3, &[]));
    assert_eq!(processor.len(), 3);
    assert_eq!(record(processor.take()), vec![1, 1]);
    assert_eq!(record(processor.take()), vec![2]);
    assert!(matches!(processor.take(), Taken::EndOfStream));
    assert!(matches!(processor.take(), Taken::Pending));
    assert_eq!(processor.len(), 0);
}

#[test]
fn consumer_gets_the_error_of_the_callback() {
    let (mut processor, mut pool) = processor_with_pool(4);
    done(processor.callback(&mut pool, false, 0, &[1]));
    assert_eq!(
        failed(processor.callback(&mut pool, false, 17, &[2])),
        (VideoErrorKind::StrayBuffer, MMAL_EINVAL)
    );
    assert!(matches!(processor.take(), Taken::Failed(VideoErrorKind::StrayBuffer, MMAL_EINVAL)));
    assert_eq!(processor.len(), 2);
}

#[test]
fn consumer_without_an_output_cannot_receive() {
    let mut processor = OutputProcessor::new();
    assert!(matches!(
        processor.take(),
        Taken::Failed(VideoErrorKind::ChannelReceive, MMAL_EINVAL)
    ));
    let mut pool = pool_in_flight(1);
    assert_eq!(
        failed(processor.callback(&mut pool, true, 0, &[1])),
        (VideoErrorKind::ChannelSend, MMAL_EINVAL)
    );
    done(processor.callback_resume(&mut pool, &Reply::Status(0)));
    assert!(processor.status().is_none());
    match processor.take_data(|_data: &[u8]| Ok(())) {
        Err(error) => {
            assert_eq!(error.kind, VideoErrorKind::ChannelReceive);
            assert_eq!(error.mmal_status, MMAL_EINVAL);
        }
        Ok(_) => panic!("took data without an output"),
    }
}

#[test]
fn take_data_hands_every_record_to_the_function_until_the_end() {
    let (mut processor, mut pool) = processor_with_pool(4);
    done(processor.callback(&mut pool, false, 0, &[1, 2]));
    done(processor.callback(&mut pool, false, 1, &[3]));
    let seen = RefCell::new(Vec::new());
    let result = processor.take_data(|data: &[u8]| {
        seen.borrow_mut().extend_from_slice(data);
        Ok(())
    });
    assert_eq!(result.ok(), Some(false));
    assert_eq!(*seen.borrow(), vec![1, 2, 3]);
    done(processor.callback(&mut pool, false, 2, &[4, 5, 6]));
    done(processor.callback(&mut pool, false, 3, &[]));
    let result = processor.take_data(|data: &[u8]| {
        seen.borrow_mut().extend_from_slice(data);
        Ok(())
    });
    assert_eq!(result.ok(), Some(true));
    assert_eq!(*seen.borrow(), vec![1, 2, 3, 4, 5, 6]);
    assert_eq!(processor.len(), 0);
}

#[test]
fn take_data_stops_at_the_error_of_the_function() {
    let (mut processor, mut pool) = processor_with_pool(4);
    done(processor.callback(&mut pool, false, 0, &[1]));
    done(processor.callback(&mut pool, false, 1, &[2]));
    done(processor.callback(&mut pool, false, 2, &[3]));
    let calls = RefCell::new(0);
    let result = processor.take_data(|data: &[u8]| {
        *calls.borrow_mut() += 1;
        if data == [2] {
            Err(VideoError::new(VideoErrorKind::OutputFileWrite, 77))
        } else {
            Ok(())
        }
    });
    match result {
        Err(error) => {
            assert_eq!(error.kind, VideoErrorKind::OutputFileWrite);
            assert_eq!(error.mmal_status, 77);
        }
        Ok(_) => panic!("the error of the function was lost"),
    }
    assert_eq!(*calls.borrow(), 2);
    assert_eq!(processor.len(), 1);
    assert_eq!(record(processor.take()), vec![3]);
}

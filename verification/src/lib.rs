//! Control logic of a camera-to-file video recorder built on the MMAL layer of
//! the Raspberry Pi.
//!
//! The library decides; it never touches the hardware itself. Every operation
//! that needs the coprocessor or the file system hands back the call to make
//! as a [`mmal::Request`], and continues when it is given the [`mmal::Reply`].

pub mod camera_component;
pub mod encoder_component;
pub mod init;
pub mod mmal;
pub mod recorder;
pub mod recorder_laws;
pub mod video_conn;
pub mod video_error;
pub mod video_input_port;
pub mod video_output;
pub mod video_output_port;
pub mod video_param;
pub mod video_pool;
pub mod video_res;
pub mod video_state;

pub use init::init;

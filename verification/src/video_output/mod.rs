//! The way out of the encoder: the callback that takes the encoded data off
//! the hardware's buffers, the channel that carries it on, and the consumer
//! that hands it to the file.

pub mod channel;
pub mod output_buffer;
pub mod output_callback_user_data;
pub mod output_processor;

//! The error a failed session ends with.

use vstd::prelude::*;
use vstd::string::*;

verus! {

/// What failed.
#[derive(Clone, Copy, Debug, PartialEq, Eq, Structural)]
pub enum VideoErrorKind {
    /// `mmal_component_create` gave no usable component.
    ComponentCreate,
    /// `mmal_port_enable` failed on the camera's control port.
    ControlPortEnable,
    /// `mmal_port_format_commit` failed.
    FormatCommit,
    /// `mmal_component_enable` failed.
    ComponentEnable,
    /// `mmal_connection_create` failed.
    ConnectionCreate,
    /// `mmal_connection_enable` failed.
    ConnectionEnable,
    /// `mmal_port_pool_create` gave no pool.
    PoolCreate,
    /// `mmal_port_send_buffer` failed.
    BufferSubmit,
    /// The pool had no free buffer when one was needed.
    PoolExhausted,
    /// `mmal_port_enable` failed on the encoder's output port.
    OutputPortEnable,
    /// `mmal_port_parameter_set_boolean` failed to start the capture.
    CaptureStart,
    /// A completed buffer was not one the pool had handed out.
    StrayBuffer,
    /// The channel had no room for a record.
    ChannelSend,
    /// Nothing can be received: the output was never set up.
    ChannelReceive,
    /// The output file could not be created.
    OutputFileCreate,
    /// The output file could not be written.
    OutputFileWrite,
}

/// A failure: what failed, a message for people, and the status code of the
/// MMAL call behind it.
#[derive(Debug, Clone)]
pub struct VideoError {
    pub kind: VideoErrorKind,
    pub message: String,
    pub mmal_status: u32,
}

impl VideoErrorKind {
    /// Whether an error of this kind is about the output file.
    pub open spec fn is_of_file_spec(self) -> bool {
        self is OutputFileCreate || self is OutputFileWrite
    }

    /// Whether an error of this kind is about the output file.
    #[verifier::when_used_as_spec(is_of_file_spec)]
    pub fn is_of_file(self) -> (of_file: bool)
        ensures
            of_file == self.is_of_file_spec(),
    {
        match self {
            VideoErrorKind::OutputFileCreate => true,
            VideoErrorKind::OutputFileWrite => true,
            _ => false,
        }
    }
}

/// What an error of the given kind says of what failed, without the name of
/// a file.
pub open spec fn message_of(kind: VideoErrorKind) -> Seq<char> {
    match kind {
        VideoErrorKind::ComponentCreate => "Failed to invoke `mmal_component_create`"@,
        VideoErrorKind::ControlPortEnable => "Failed to invoke `mmal_port_enable`"@,
        VideoErrorKind::FormatCommit => "Failed to invoke `mmal_port_format_commit`"@,
        VideoErrorKind::ComponentEnable => "Failed to invoke `mmal_component_enable`"@,
        VideoErrorKind::ConnectionCreate => "Failed to invoke `mmal_connection_create`"@,
        VideoErrorKind::ConnectionEnable => "Failed to invoke `mmal_connection_enable`"@,
        VideoErrorKind::PoolCreate => "Failed to invoke `mmal_port_pool_create`"@,
        VideoErrorKind::BufferSubmit => "Failed to invoke `mmal_port_send_buffer`"@,
        VideoErrorKind::PoolExhausted => "Failed to invoke `mmal_queue_get`"@,
        VideoErrorKind::OutputPortEnable => "Failed to invoke `mmal_port_enable`"@,
        VideoErrorKind::CaptureStart => "Failed to invoke `mmal_port_parameter_set_boolean`"@,
        VideoErrorKind::StrayBuffer => "The completed buffer does not belong to the pool"@,
        VideoErrorKind::ChannelSend => "Failed to invoke `send`"@,
        VideoErrorKind::ChannelReceive => "Failed to invoke `recv`"@,
        VideoErrorKind::OutputFileCreate => "Failed to create the output file"@,
        VideoErrorKind::OutputFileWrite => "Failed to write the output file"@,
    }
}

/// The message of an error of the given kind in a session that writes to the
/// file at `path`. An error about the output file says what failed, then
/// names the file between backticks, and then, after a colon, gives what the
/// file system said of the failure, if it said anything; any other error only
/// says what failed.
pub open spec fn message_at(kind: VideoErrorKind, path: Seq<char>, detail: Seq<char>) -> Seq<char> {
    if kind.is_of_file_spec() {
        message_of(kind) + " `"@ + path + "`"@ + if detail.len() > 0 {
            ": "@ + detail
        } else {
            Seq::empty()
        }
    } else {
        message_of(kind)
    }
}

/// The message of an error about the output file holds the path of the file,
/// whole and unchanged, between the backticks that follow what failed, and
/// ends with what the file system said; the message of any other error is
/// the same in every session.
pub proof fn lemma_message_names_the_file(kind: VideoErrorKind, path: Seq<char>, detail: Seq<char>)
    ensures
        kind.is_of_file_spec() ==> ({
            let message = message_at(kind, path, detail);
            let start = message_of(kind).len() + 2;
            &&& message.len() == start + path.len() + 1 + if detail.len() > 0 {
                detail.len() + 2
            } else {
                0
            }
            &&& message.subrange(0, message_of(kind).len() as int) == message_of(kind)
            &&& message.subrange(start as int, start as int + path.len()) == path
            &&& message.subrange(message.len() - detail.len(), message.len() as int) == detail
        }),
        !kind.is_of_file_spec() ==> message_at(kind, path, detail) == message_of(kind),
{
    reveal_strlit(" `");
    reveal_strlit("`");
    reveal_strlit(": ");
    if kind.is_of_file_spec() {
        let message = message_at(kind, path, detail);
        let start = message_of(kind).len() + 2;
        assert(message.subrange(0, message_of(kind).len() as int) =~= message_of(kind));
        assert(message.subrange(start as int, start as int + path.len()) =~= path);
        assert(message.subrange(message.len() - detail.len(), message.len() as int) =~= detail);
    }
}

impl VideoError {
    /// Whether this is the error of the given kind and status, with the
    /// message that belongs to the kind and names no file.
    pub open spec fn is(&self, kind: VideoErrorKind, mmal_status: u32) -> bool {
        &&& self.kind == kind
        &&& self.mmal_status == mmal_status
        &&& self.message@ == message_of(kind)
    }

    /// Whether this is the error of the given kind and status in a session
    /// that writes to the file at `path`: if the error is about the output
    /// file, its message names the file and gives `detail`, what the file
    /// system said.
    pub open spec fn is_at(
        &self,
        kind: VideoErrorKind,
        mmal_status: u32,
        path: Seq<char>,
        detail: Seq<char>,
    ) -> bool {
        &&& self.kind == kind
        &&& self.mmal_status == mmal_status
        &&& self.message@ == message_at(kind, path, detail)
    }

    /// The error of the given kind in a session that writes to the file at
    /// `path`, with the status of the call that failed. An error about the
    /// output file names the file, and gives `detail`, what the file system
    /// said of the failure, unless that is empty.
    pub fn at(kind: VideoErrorKind, mmal_status: u32, path: &str, detail: &str) -> (error:
        VideoError)
        ensures
            error.is_at(kind, mmal_status, path@, detail@),
    {
        let mut error = VideoError::new(kind, mmal_status);
        if kind.is_of_file() {
            let mut message = error.message;
            message.append(" `");
            message.append(path);
            message.append("`");
            if !detail.is_empty() {
                message.append(": ");
                message.append(detail);
            }
            assert(message@ =~= message_at(kind, path@, detail@));
            error = VideoError { kind, message, mmal_status };
        }
        error
    }

    /// The error of the given kind, with the status of the call that failed.
    /// Its message names no file: [`VideoError::at`] makes the error of a
    /// session with an output file.
    pub fn new(kind: VideoErrorKind, mmal_status: u32) -> (error: VideoError)
        ensures
            error.is(kind, mmal_status),
    {
        let text = match kind {
            VideoErrorKind::ComponentCreate => "Failed to invoke `mmal_component_create`",
            VideoErrorKind::ControlPortEnable => "Failed to invoke `mmal_port_enable`",
            VideoErrorKind::FormatCommit => "Failed to invoke `mmal_port_format_commit`",
            VideoErrorKind::ComponentEnable => "Failed to invoke `mmal_component_enable`",
            VideoErrorKind::ConnectionCreate => "Failed to invoke `mmal_connection_create`",
            VideoErrorKind::ConnectionEnable => "Failed to invoke `mmal_connection_enable`",
            VideoErrorKind::PoolCreate => "Failed to invoke `mmal_port_pool_create`",
            VideoErrorKind::BufferSubmit => "Failed to invoke `mmal_port_send_buffer`",
            VideoErrorKind::PoolExhausted => "Failed to invoke `mmal_queue_get`",
            VideoErrorKind::OutputPortEnable => "Failed to invoke `mmal_port_enable`",
            VideoErrorKind::CaptureStart => "Failed to invoke `mmal_port_parameter_set_boolean`",
            VideoErrorKind::StrayBuffer => "The completed buffer does not belong to the pool",
            VideoErrorKind::ChannelSend => "Failed to invoke `send`",
            VideoErrorKind::ChannelReceive => "Failed to invoke `recv`",
            VideoErrorKind::OutputFileCreate => "Failed to create the output file",
            VideoErrorKind::OutputFileWrite => "Failed to write the output file",
        };
        VideoError { kind, message: String::from_str(text), mmal_status }
    }
}

} // verus!

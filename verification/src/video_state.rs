//! The output file of a session.

use vstd::prelude::*;
use crate::mmal::{Outcome, Reply, Request, Step, MMAL_EINVAL};
use crate::video_error::VideoErrorKind;
use crate::video_output::output_buffer::OutputBuffer;
use crate::video_param::VideoParam;

verus! {

/// The output file as a value.
pub struct SinkView {
    /// Whether the file has been created.
    pub open: bool,
    /// The call that is being made, if one is.
    pub awaiting: Option<Request>,
    /// The bytes that are being written, while they are.
    pub pending: Option<Seq<u8>>,
    /// All the bytes that have been written.
    pub written: Seq<u8>,
}

impl SinkView {
    /// No file yet.
    pub open spec fn new_spec() -> SinkView {
        SinkView { open: false, awaiting: None, pending: None, written: Seq::empty() }
    }

    /// Starts an operation with `call`, unless a call is in flight already:
    /// then nothing changes, and that call is handed out again.
    pub open spec fn started(self, call: Request) -> (SinkView, Outcome) {
        match self.awaiting {
            Some(pending) => (self, Outcome::Call(pending)),
            None => (SinkView { awaiting: Some(call), ..self }, Outcome::Call(call)),
        }
    }

    /// Starts to create the file at `path`. No file can be created at an
    /// empty path.
    pub open spec fn init_spec(self, path: Seq<char>) -> (SinkView, Outcome) {
        if self.awaiting is None && path.len() == 0 {
            (self, Outcome::Failed(VideoErrorKind::OutputFileCreate, MMAL_EINVAL))
        } else {
            self.started(Request::CreateOutputFile)
        }
    }

    /// Starts to append `bytes` to the file. Nothing can be written before
    /// the file has been created.
    pub open spec fn write_output_file_spec(self, bytes: Seq<u8>) -> (SinkView, Outcome) {
        if self.awaiting is Some {
            self.started(Request::WriteOutputFile)
        } else if !self.open {
            (self, Outcome::Failed(VideoErrorKind::OutputFileWrite, MMAL_EINVAL))
        } else {
            SinkView { pending: Some(bytes), ..self }.started(Request::WriteOutputFile)
        }
    }

    /// Starts to flush the file. Nothing is to do before the file has been
    /// created.
    pub open spec fn sync_output_file_spec(self) -> (SinkView, Outcome) {
        if self.awaiting is None && !self.open {
            (self, Outcome::Finished)
        } else {
            self.started(Request::SyncOutputFile)
        }
    }

    /// Takes the reply to the call in flight: a file that was created is
    /// open; bytes that were written are part of the file, after all that
    /// was written before.
    pub open spec fn resume_spec(self, reply: Reply) -> (SinkView, Outcome) {
        let rest = SinkView { awaiting: None, ..self };
        match self.awaiting {
            Some(Request::CreateOutputFile) => if reply.succeeded_spec() {
                (SinkView { open: true, ..rest }, Outcome::Finished)
            } else {
                (rest, Outcome::Failed(VideoErrorKind::OutputFileCreate, reply.status_spec()))
            },
            Some(Request::WriteOutputFile) => if reply.succeeded_spec() {
                (
                    SinkView {
                        written: self.written + match self.pending {
                            Some(bytes) => bytes,
                            None => Seq::empty(),
                        },
                        pending: None,
                        ..rest
                    },
                    Outcome::Finished,
                )
            } else {
                (
                    SinkView { pending: None, ..rest },
                    Outcome::Failed(VideoErrorKind::OutputFileWrite, reply.status_spec()),
                )
            },
            _ => (rest, Outcome::Finished),
        }
    }

    /// Whether bytes are held out exactly while they are being written.
    pub open spec fn wf(self) -> bool {
        &&& self.pending is Some <==> self.awaiting == Some(Request::WriteOutputFile)
        &&& self.awaiting matches Some(call) ==> call is CreateOutputFile || call is WriteOutputFile
            || call is SyncOutputFile
    }
}

/// What the file system has said of a failure before any call was made:
/// nothing.
fn nothing_said() -> (text: &'static str)
    ensures
        text@ == Seq::<char>::empty(),
{
    proof {
        reveal_strlit("");
    }
    assert(""@ =~= Seq::<char>::empty());
    ""
}

/// The output file of a recording session.
pub struct VideoState {
    param: VideoParam,
    output_file: bool,
    awaiting: Option<Request>,
    pending: Option<OutputBuffer>,
    written: Ghost<Seq<u8>>,
}

impl View for VideoState {
    type V = SinkView;

    closed spec fn view(&self) -> SinkView {
        SinkView {
            open: self.output_file,
            awaiting: self.awaiting,
            pending: match self.pending {
                Some(buffer) => Some(buffer@),
                None => None,
            },
            written: self.written@,
        }
    }
}

impl VideoState {
    /// The parameters that the state was made with.
    pub closed spec fn param_spec(&self) -> VideoParam {
        self.param
    }

    /// The state of a session with these parameters. No file exists yet.
    pub fn new(param: VideoParam) -> (state: VideoState)
        ensures
            state@ == SinkView::new_spec(),
            state.param_spec() == param,
    {
        VideoState {
            param,
            output_file: false,
            awaiting: None,
            pending: None,
            written: Ghost(Seq::empty()),
        }
    }

    /// The call that is being made, if one is.
    pub fn awaiting(&self) -> (call: Option<Request>)
        ensures
            call == self@.awaiting,
    {
        self.awaiting
    }

    /// Whether the file has been created.
    pub fn validate_output_file_handle(&self) -> (open: bool)
        ensures
            open == self@.open,
    {
        self.output_file
    }

    /// Whether the path of the file can name a file: it is not empty.
    pub fn validate_output_file_path(&self) -> (valid: bool)
        ensures
            valid == (self.param_spec().output_file_path@.len() > 0),
    {
        !self.param.output_file_path.as_str().is_empty()
    }

    /// The path of the file.
    pub fn output_file_path(&self) -> (path: &String)
        ensures
            *path == self.param_spec().output_file_path,
    {
        &self.param.output_file_path
    }

    /// The bytes that are being written, while they are.
    pub fn pending_output(&self) -> (bytes: Option<&[u8]>)
        ensures
            bytes is Some == self@.pending is Some,
            bytes matches Some(b) ==> Some(b@) == self@.pending,
    {
        match &self.pending {
            Some(buffer) => Some(buffer.raw_data()),
            None => None,
        }
    }

    /// Starts an operation with `call`, unless a call is in flight.
    fn start(&mut self, call: Request) -> (outcome: Outcome)
        ensures
            final(self)@ == old(self)@.started(call).0,
            outcome == old(self)@.started(call).1,
            final(self).param_spec() == old(self).param_spec(),
    {
        match self.awaiting {
            Some(pending) => Outcome::Call(pending),
            None => {
                self.awaiting = Some(call);
                Outcome::Call(call)
            },
        }
    }

    /// Starts to create the output file. The file must not exist yet.
    pub fn init(&mut self) -> (step: Step<()>)
        ensures
            final(self)@ == old(self)@.init_spec(old(self).param_spec().output_file_path@).0,
            step.is_at(
                old(self)@.init_spec(old(self).param_spec().output_file_path@).1,
                old(self).param_spec().output_file_path@,
                Seq::empty(),
            ),
            final(self).param_spec() == old(self).param_spec(),
    {
        let outcome = if self.awaiting.is_none() && !self.validate_output_file_path() {
            Outcome::Failed(VideoErrorKind::OutputFileCreate, MMAL_EINVAL)
        } else {
            self.start(Request::CreateOutputFile)
        };
        Step::at(outcome, self.param.output_file_path.as_str(), nothing_said())
    }

    /// Starts to append the bytes of `buf` to the output file. While the call
    /// is made, [`VideoState::pending_output`] holds the bytes out.
    pub fn write_output_file(&mut self, buf: OutputBuffer) -> (step: Step<()>)
        ensures
            final(self)@ == old(self)@.write_output_file_spec(buf@).0,
            step.is_at(
                old(self)@.write_output_file_spec(buf@).1,
                old(self).param_spec().output_file_path@,
                Seq::empty(),
            ),
            final(self).param_spec() == old(self).param_spec(),
    {
        let outcome = if self.awaiting.is_some() {
            self.start(Request::WriteOutputFile)
        } else if !self.output_file {
            Outcome::Failed(VideoErrorKind::OutputFileWrite, MMAL_EINVAL)
        } else {
            self.pending = Some(buf);
            self.start(Request::WriteOutputFile)
        };
        Step::at(outcome, self.param.output_file_path.as_str(), nothing_said())
    }

    /// Starts to flush the output file.
    pub fn sync_output_file(&mut self) -> (step: Step<()>)
        ensures
            final(self)@ == old(self)@.sync_output_file_spec().0,
            step.is_at(
                old(self)@.sync_output_file_spec().1,
                old(self).param_spec().output_file_path@,
                Seq::empty(),
            ),
            final(self).param_spec() == old(self).param_spec(),
    {
        let outcome = if self.awaiting.is_none() && !self.output_file {
            Outcome::Finished
        } else {
            self.start(Request::SyncOutputFile)
        };
        Step::at(outcome, self.param.output_file_path.as_str(), nothing_said())
    }

    /// Takes the reply to the call that was handed out last. The error of a
    /// call that failed names the file, and gives what the reply says of the
    /// failure.
    pub fn resume(&mut self, reply: &Reply) -> (step: Step<()>)
        ensures
            final(self)@ == old(self)@.resume_spec(*reply).0,
            step.is_at(
                old(self)@.resume_spec(*reply).1,
                old(self).param_spec().output_file_path@,
                reply.detail_spec(),
            ),
            final(self).param_spec() == old(self).param_spec(),
    {
        let awaiting = self.awaiting;
        self.awaiting = None;
        let outcome = match awaiting {
            Some(Request::CreateOutputFile) => if reply.succeeded() {
                self.output_file = true;
                Outcome::Finished
            } else {
                Outcome::Failed(VideoErrorKind::OutputFileCreate, reply.status())
            },
            Some(Request::WriteOutputFile) => {
                let ok = reply.succeeded();
                let ghost bytes = match self@.pending {
                    Some(bytes) => bytes,
                    None => Seq::empty(),
                };
                if ok {
                    self.written = Ghost(self.written@ + bytes);
                }
                self.pending = None;
                if ok {
                    Outcome::Finished
                } else {
                    Outcome::Failed(VideoErrorKind::OutputFileWrite, reply.status())
                }
            },
            _ => Outcome::Finished,
        };
        Step::at(outcome, self.param.output_file_path.as_str(), reply.detail())
    }

}

} // verus!

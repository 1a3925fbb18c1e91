//! The output callback, and the consumer of what it passes on.

use vstd::prelude::*;
use crate::mmal::{Outcome, PortRef, Reply, Request, Step, MMAL_EINVAL};
use crate::video_error::{VideoError, VideoErrorKind};
use crate::video_output::channel::{ChannelView, Record};
use crate::video_output::output_buffer::OutputBuffer;
use crate::video_output::output_callback_user_data::{
    BridgeStatus, OutputCallbackUserData, UserDataView,
};
use crate::video_output_port::VideoOutputPort;
use crate::video_pool::{BufferPool, PoolView, VideoPool};

verus! {

/// What the consumer gets when it asks for the next record.
#[derive(Debug)]
pub enum Taken {
    /// A piece of encoded data.
    Record(OutputBuffer),
    /// The end of the stream: there will be no more data.
    EndOfStream,
    /// Nothing yet: the callback has passed on nothing that was not taken.
    Pending,
    /// The session has failed, with this kind of error and status.
    Failed(VideoErrorKind, u32),
}

/// What the consumer gets, as a value.
pub enum TakenView {
    Record(Seq<u8>),
    EndOfStream,
    Pending,
    Failed(VideoErrorKind, u32),
}

impl View for Taken {
    type V = TakenView;

    open spec fn view(&self) -> TakenView {
        match self {
            Taken::Record(buffer) => TakenView::Record(buffer@),
            Taken::EndOfStream => TakenView::EndOfStream,
            Taken::Pending => TakenView::Pending,
            Taken::Failed(kind, status) => TakenView::Failed(*kind, *status),
        }
    }
}

/// An output processor as a value.
pub struct ProcessorView {
    /// The callback's context, once the output has been set up.
    pub user_data: Option<UserDataView>,
    /// The call that is being made, if one is.
    pub awaiting: Option<Request>,
    /// Whether the processor has enabled the port.
    pub enabled: bool,
}

impl ProcessorView {
    /// A processor that has not set up anything.
    pub open spec fn new_spec() -> ProcessorView {
        ProcessorView { user_data: None, awaiting: None, enabled: false }
    }

    /// Starts an operation with `call`, unless a call is in flight already:
    /// then nothing changes, and that call is handed out again.
    pub open spec fn started(self, call: Request) -> (ProcessorView, Outcome) {
        match self.awaiting {
            Some(pending) => (self, Outcome::Call(pending)),
            None => (ProcessorView { awaiting: Some(call), ..self }, Outcome::Call(call)),
        }
    }

    /// Starts to set up the output on `port`: a new context with an empty
    /// channel takes the place of the old one, and the port is enabled with
    /// the callback. Without a pool nothing can be set up.
    pub open spec fn init_spec(self, port: PortRef, pool: Option<PoolView>) -> (
        ProcessorView,
        Outcome,
    ) {
        match pool {
            Some(pool) if self.awaiting is None => ProcessorView {
                user_data: Some(UserDataView::new_spec(port, pool)),
                ..self
            }.started(Request::EnablePort(port)),
            None if self.awaiting is None => (
                self,
                Outcome::Failed(VideoErrorKind::PoolExhausted, MMAL_EINVAL),
            ),
            _ => self.started(Request::EnablePort(port)),
        }
    }

    /// Starts to disable `port`. Nothing is to do unless the processor has
    /// enabled it.
    pub open spec fn disable_spec(self, port: PortRef) -> (ProcessorView, Outcome) {
        if self.awaiting is None && !self.enabled {
            (self, Outcome::Finished)
        } else {
            self.started(Request::DisablePort(port))
        }
    }

    /// Takes the reply to the call in flight: the port is enabled if the
    /// call to enable it succeeded, and disabled once it has been asked to
    /// be.
    pub open spec fn resume_spec(self, reply: Reply) -> (ProcessorView, Outcome) {
        let rest = ProcessorView { awaiting: None, ..self };
        match self.awaiting {
            Some(Request::EnablePort(_)) => if reply.succeeded_spec() {
                (ProcessorView { enabled: true, ..rest }, Outcome::Finished)
            } else {
                (rest, Outcome::Failed(VideoErrorKind::OutputPortEnable, reply.status_spec()))
            },
            Some(Request::DisablePort(_)) => (
                ProcessorView { enabled: false, ..rest },
                Outcome::Finished,
            ),
            _ => (rest, Outcome::Finished),
        }
    }

    /// What the consumer gets next. Without an output there is nothing to
    /// receive; a session that has failed gives its error; else the oldest
    /// record in the channel is taken out, if there is one.
    pub open spec fn take_spec(self) -> (ProcessorView, TakenView) {
        match self.user_data {
            None => (self, TakenView::Failed(VideoErrorKind::ChannelReceive, MMAL_EINVAL)),
            Some(user_data) => match user_data.status.failure {
                Some((kind, status)) => (self, TakenView::Failed(kind, status)),
                None => if user_data.channel.records.len() == 0 {
                    (self, TakenView::Pending)
                } else {
                    (
                        ProcessorView {
                            user_data: Some(
                                UserDataView {
                                    channel: user_data.channel.received_spec(),
                                    ..user_data
                                },
                            ),
                            ..self
                        },
                        match user_data.channel.records[0] {
                            Some(bytes) => TakenView::Record(bytes),
                            None => TakenView::EndOfStream,
                        },
                    )
                },
            },
        }
    }

    /// What the callback does when the hardware hands it a buffer. Without
    /// an output there is nowhere to send to.
    pub open spec fn callback_spec(
        self,
        pool: PoolView,
        port_enabled: bool,
        buffer: u32,
        payload: Seq<u8>,
    ) -> (ProcessorView, PoolView, Outcome) {
        match self.user_data {
            None => (self, pool, Outcome::Failed(VideoErrorKind::ChannelSend, MMAL_EINVAL)),
            Some(user_data) => {
                let after = user_data.callback_spec(pool, port_enabled, buffer, payload);
                (ProcessorView { user_data: Some(after.0), ..self }, after.1, after.2)
            },
        }
    }

    /// What the callback does when the port has answered.
    pub open spec fn callback_resume_spec(self, pool: PoolView, reply: Reply) -> (
        ProcessorView,
        PoolView,
        Outcome,
    ) {
        match self.user_data {
            None => (self, pool, Outcome::Finished),
            Some(user_data) => {
                let after = user_data.resume_spec(pool, reply);
                (ProcessorView { user_data: Some(after.0), ..self }, after.1, after.2)
            },
        }
    }

    /// The records that are in the channel, oldest first; none without an
    /// output.
    pub open spec fn records(self) -> Seq<Record> {
        match self.user_data {
            Some(user_data) => user_data.channel.records,
            None => Seq::empty(),
        }
    }

    /// Every record that the consumer has taken; none without an output.
    pub open spec fn received(self) -> Seq<Record> {
        match self.user_data {
            Some(user_data) => user_data.channel.received,
            None => Seq::empty(),
        }
    }

    /// Whether the consumer can take records: there is an output, and the
    /// session has not failed.
    pub open spec fn receiving(self) -> bool {
        self.user_data matches Some(user_data) && user_data.status.failure is None
    }

    /// The processor after the consumer has taken `count` records.
    pub open spec fn after_taking(self, count: nat) -> ProcessorView
        decreases count,
    {
        if count == 0 {
            self
        } else {
            self.after_taking((count - 1) as nat).take_spec().0
        }
    }
}

/// To take records is to take them in the order in which they are in the
/// channel: after `count` records were taken, the first `count` records of
/// the channel have been received, in their order, and the others are still
/// in the channel, in their order.
pub proof fn lemma_after_taking(processor: ProcessorView, count: nat)
    requires
        processor.receiving(),
        count <= processor.records().len(),
    ensures
        processor.after_taking(count).receiving(),
        processor.after_taking(count).records() == processor.records().skip(count as int),
        processor.after_taking(count).received() == processor.received()
            + processor.records().take(count as int),
        processor.after_taking(count) == (ProcessorView {
            user_data: Some(
                UserDataView {
                    channel: processor.after_taking(count).user_data->Some_0.channel,
                    ..processor.user_data->Some_0
                },
            ),
            ..processor
        }),
        processor.after_taking(count).user_data->Some_0.channel == (ChannelView {
            records: processor.records().skip(count as int),
            received: processor.received() + processor.records().take(count as int),
            ..processor.user_data->Some_0.channel
        }),
    decreases count,
{
    if count == 0 {
        assert(processor.records().skip(0) =~= processor.records());
        assert(processor.received() + processor.records().take(0) =~= processor.received());
    } else {
        let previous = (count - 1) as nat;
        lemma_after_taking(processor, previous);
        let before = processor.after_taking(previous);
        assert(before.records()[0] == processor.records()[previous as int]);
        assert(before.records().drop_first() =~= processor.records().skip(count as int));
        assert(before.received().push(before.records()[0]) =~= processor.received()
            + processor.records().take(count as int));
    }
}

/// What the output callback does when the hardware hands it the buffer with
/// the number `buffer`, filled with `payload`.
///
/// A buffer without data marks the end of the stream: the end marker is
/// passed on, once. A buffer with data is copied, the copy is passed on, and
/// the buffer goes back to `pool`. Then, if the port is enabled and the
/// session live, the step is the call that sends the pool's oldest free
/// buffer to the port; the answer goes to [`output_callback_resume`]. An
/// error ends the step, and the session: the consumer gets it in place of
/// the next record.
pub fn output_callback(
    user_data: &mut OutputCallbackUserData,
    pool: &mut BufferPool,
    port_enabled: bool,
    buffer: u32,
    payload: &[u8],
) -> (step: Step<()>)
    ensures
        final(user_data)@ == old(user_data)@.callback_spec(
            old(pool)@,
            port_enabled,
            buffer,
            payload@,
        ).0,
        final(pool)@ == old(user_data)@.callback_spec(old(pool)@, port_enabled, buffer, payload@).1,
        step.is(old(user_data)@.callback_spec(old(pool)@, port_enabled, buffer, payload@).2),
{
    Step::of(user_data.on_buffer(pool, port_enabled, buffer, payload))
}

/// What the output callback does when the port has answered the call that
/// [`output_callback`] handed out: a buffer that the port refused goes back
/// to the pool and is an error.
pub fn output_callback_resume(
    user_data: &mut OutputCallbackUserData,
    pool: &mut BufferPool,
    reply: &Reply,
) -> (step: Step<()>)
    ensures
        final(user_data)@ == old(user_data)@.resume_spec(old(pool)@, *reply).0,
        final(pool)@ == old(user_data)@.resume_spec(old(pool)@, *reply).1,
        step.is(old(user_data)@.resume_spec(old(pool)@, *reply).2),
{
    Step::of(user_data.on_reply(pool, reply))
}

/// Whether `fun` has been handed these bytes and has returned this result:
/// `result` is what a call of `fun` on the bytes can return.
pub open spec fn handed<F: Fn(&[u8]) -> Result<(), VideoError>>(
    fun: F,
    bytes: Seq<u8>,
    result: Result<(), VideoError>,
) -> bool {
    exists|data: &[u8]| data@ == bytes && call_ensures(fun, (data,), result)
}

/// Whether the record at `index` is one with data that `fun` has been handed
/// and has succeeded on.
pub open spec fn consumed<F: Fn(&[u8]) -> Result<(), VideoError>>(
    fun: F,
    records: Seq<Record>,
    index: int,
) -> bool {
    records[index] is Some && handed(fun, records[index]->Some_0, Ok(()))
}

/// Sets up the output of the encoder and consumes what comes out of it.
pub struct OutputProcessor {
    user_data: Option<OutputCallbackUserData>,
    awaiting: Option<Request>,
    enabled: bool,
}

impl View for OutputProcessor {
    type V = ProcessorView;

    closed spec fn view(&self) -> ProcessorView {
        ProcessorView {
            user_data: match self.user_data {
                Some(user_data) => Some(user_data@),
                None => None,
            },
            awaiting: self.awaiting,
            enabled: self.enabled,
        }
    }
}

impl OutputProcessor {
    /// A processor that has not set up anything.
    pub fn new() -> (processor: OutputProcessor)
        ensures
            processor@ == ProcessorView::new_spec(),
    {
        OutputProcessor { user_data: None, awaiting: None, enabled: false }
    }

    /// The call that is being made, if one is.
    pub fn awaiting(&self) -> (call: Option<Request>)
        ensures
            call == self@.awaiting,
    {
        self.awaiting
    }

    /// Whether the processor has enabled the port.
    pub fn enabled(&self) -> (enabled: bool)
        ensures
            enabled == self@.enabled,
    {
        self.enabled
    }

    /// Whether the output has been set up, so that there is a channel to
    /// receive from.
    pub fn validate_buffer_receiver(&self) -> (exists: bool)
        ensures
            exists == self@.user_data is Some,
    {
        self.user_data.is_some()
    }

    /// Where the session stands, as the callback sees it; `None` before the
    /// output has been set up.
    pub fn status(&self) -> (status: Option<BridgeStatus>)
        ensures
            status is Some == self@.user_data is Some,
            status matches Some(s) ==> s == self@.user_data->Some_0.status,
    {
        match &self.user_data {
            Some(user_data) => Some(user_data.status()),
            None => None,
        }
    }

    /// How many records are in the channel.
    pub fn len(&self) -> (len: usize)
        ensures
            len == self@.records().len(),
    {
        match &self.user_data {
            Some(user_data) => user_data.len(),
            None => 0,
        }
    }

    /// Starts an operation with `call`, unless a call is in flight.
    fn start(&mut self, call: Request) -> (outcome: Outcome)
        ensures
            final(self)@ == old(self)@.started(call).0,
            outcome == old(self)@.started(call).1,
    {
        match self.awaiting {
            Some(pending) => Outcome::Call(pending),
            None => {
                self.awaiting = Some(call);
                Outcome::Call(call)
            },
        }
    }

    /// Starts to set up the output on the port of `output_port`: makes the
    /// channel, with room for as many records as `pool` has buffers, and
    /// enables the port with the callback.
    pub fn init<O: VideoOutputPort, P: VideoPool>(&mut self, output_port: &O, pool: &P) -> (step: Step<()>)
        ensures
            final(self)@ == old(self)@.init_spec(output_port.output_port_spec(), pool.pool_spec()).0,
            step.is(old(self)@.init_spec(output_port.output_port_spec(), pool.pool_spec()).1),
    {
        let port = output_port.raw_output_port();
        let outcome = if self.awaiting.is_some() {
            self.start(Request::EnablePort(port))
        } else {
            match pool.raw_pool() {
                Some(pool) => {
                    self.user_data = Some(OutputCallbackUserData::new(port, pool));
                    self.start(Request::EnablePort(port))
                },
                None => Outcome::Failed(VideoErrorKind::PoolExhausted, MMAL_EINVAL),
            }
        };
        Step::of(outcome)
    }

    /// Starts to disable the port of `output_port`. Where the processor has
    /// not enabled it, the operation is over at once.
    pub fn disable<O: VideoOutputPort>(&mut self, output_port: &O) -> (step: Step<()>)
        ensures
            final(self)@ == old(self)@.disable_spec(output_port.output_port_spec()).0,
            step.is(old(self)@.disable_spec(output_port.output_port_spec()).1),
    {
        let outcome = if self.awaiting.is_none() && !self.enabled {
            Outcome::Finished
        } else {
            self.start(Request::DisablePort(output_port.raw_output_port()))
        };
        Step::of(outcome)
    }

    /// Takes the reply to the call that was handed out last.
    pub fn resume(&mut self, reply: &Reply) -> (step: Step<()>)
        ensures
            final(self)@ == old(self)@.resume_spec(*reply).0,
            step.is(old(self)@.resume_spec(*reply).1),
    {
        let awaiting = self.awaiting;
        self.awaiting = None;
        let outcome = match awaiting {
            Some(Request::EnablePort(_)) => if reply.succeeded() {
                self.enabled = true;
                Outcome::Finished
            } else {
                Outcome::Failed(VideoErrorKind::OutputPortEnable, reply.status())
            },
            Some(Request::DisablePort(_)) => {
                self.enabled = false;
                Outcome::Finished
            },
            _ => Outcome::Finished,
        };
        Step::of(outcome)
    }

    /// The output callback, on the context that this processor holds.
    pub fn callback(
        &mut self,
        pool: &mut BufferPool,
        port_enabled: bool,
        buffer: u32,
        payload: &[u8],
    ) -> (step: Step<()>)
        ensures
            final(self)@ == old(self)@.callback_spec(old(pool)@, port_enabled, buffer, payload@).0,
            final(pool)@ == old(self)@.callback_spec(old(pool)@, port_enabled, buffer, payload@).1,
            step.is(old(self)@.callback_spec(old(pool)@, port_enabled, buffer, payload@).2),
    {
        match self.user_data.take() {
            Some(mut user_data) => {
                let step = output_callback(&mut user_data, pool, port_enabled, buffer, payload);
                self.user_data = Some(user_data);
                step
            },
            None => Step::of(Outcome::Failed(VideoErrorKind::ChannelSend, MMAL_EINVAL)),
        }
    }

    /// The output callback's second half, on the context that this processor
    /// holds.
    pub fn callback_resume(&mut self, pool: &mut BufferPool, reply: &Reply) -> (step: Step<()>)
        ensures
            final(self)@ == old(self)@.callback_resume_spec(old(pool)@, *reply).0,
            final(pool)@ == old(self)@.callback_resume_spec(old(pool)@, *reply).1,
            step.is(old(self)@.callback_resume_spec(old(pool)@, *reply).2),
    {
        match self.user_data.take() {
            Some(mut user_data) => {
                let step = output_callback_resume(&mut user_data, pool, reply);
                self.user_data = Some(user_data);
                step
            },
            None => Step::of(Outcome::Finished),
        }
    }

    /// Whether the consumer would get something if it asked now: a record,
    /// the end of the stream, or an error.
    pub fn has_output(&self) -> (ready: bool)
        ensures
            ready == !(self@.take_spec().1 is Pending),
    {
        match &self.user_data {
            None => true,
            Some(user_data) => user_data.status().failure.is_some() || user_data.len() > 0,
        }
    }

    /// Takes the next record for the consumer.
    pub fn take(&mut self) -> (taken: Taken)
        ensures
            final(self)@ == old(self)@.take_spec().0,
            taken@ == old(self)@.take_spec().1,
    {
        match self.user_data.take() {
            None => Taken::Failed(VideoErrorKind::ChannelReceive, MMAL_EINVAL),
            Some(mut user_data) => {
                let taken = match user_data.status().failure {
                    Some((kind, status)) => Taken::Failed(kind, status),
                    None => match user_data.recv() {
                        None => Taken::Pending,
                        Some(None) => Taken::EndOfStream,
                        Some(Some(buffer)) => Taken::Record(buffer),
                    },
                };
                self.user_data = Some(user_data);
                taken
            },
        }
    }

    /// Hands the records in the channel to `fun`, oldest first, until the end
    /// of the stream is taken, no record is left, or `fun` fails.
    ///
    /// `Ok(true)` says that the end of the stream was taken, `Ok(false)` that
    /// the channel ran empty before that: more is to come. An error is that
    /// of the session, if it has failed or has no output, and else the one
    /// that `fun` returned for the record taken last. Every record with data
    /// that was taken has been handed to `fun`, and `fun` has succeeded on
    /// all of them but, in case of an error, the last.
    pub fn take_data<F: Fn(&[u8]) -> Result<(), VideoError>>(&mut self, fun: F) -> (result: Result<
        bool,
        VideoError,
    >)
        requires
            forall|data: &[u8]| call_requires(fun, (data,)),
        ensures
            !old(self)@.receiving() ==> final(self)@ == old(self)@ && (result matches Err(error)
                && old(self)@.take_spec().1 matches TakenView::Failed(kind, status) && error.is(
                kind,
                status,
            )),
            old(self)@.receiving() ==> exists|count: nat|
                {
                    let records = old(self)@.records();
                    &&& count <= records.len()
                    &&& final(self)@ == #[trigger] old(self)@.after_taking(count)
                    &&& forall|i: int| 0 <= i < count - 1 ==> #[trigger] consumed(fun, records, i)
                    &&& match result {
                        Ok(true) => count > 0 && records[count - 1] is None,
                        Ok(false) => count == records.len() && (count > 0 ==> consumed(
                            fun,
                            records,
                            count - 1,
                        )),
                        Err(error) => count > 0 && records[count - 1] is Some && handed(
                            fun,
                            records[count - 1]->Some_0,
                            Err(error),
                        ),
                    }
                },
    {
        let ghost before = self@;
        let ghost mut count: nat = 0;
        loop
            invariant
                before == old(self)@,
                before.receiving() ==> count <= before.records().len(),
                before.receiving() ==> self@ == before.after_taking(count),
                !before.receiving() ==> self@ == before,
                forall|i: int| 0 <= i < count ==> #[trigger] consumed(fun, before.records(), i),
                forall|data: &[u8]| call_requires(fun, (data,)),
            decreases before.records().len() - count, self@.receiving() as int,
        {
            proof {
                if before.receiving() {
                    lemma_after_taking(before, count);
                }
            }
            let taken = self.take();
            proof {
                if before.receiving() && !(taken@ is Pending) {
                    lemma_after_taking(before, count + 1);
                    assert(before.after_taking(count + 1) == before.after_taking(
                        count,
                    ).take_spec().0);
                }
            }
            match taken {
                Taken::Record(buffer) => {
                    proof {
                        count = count + 1;
                    }
                    let data = buffer.raw_data();
                    let written = fun(data);
                    assert(handed(fun, before.records()[count - 1]->Some_0, written));
                    match written {
                        Ok(unit) => {
                            assert(written == Ok::<(), VideoError>(unit));
                            assert(consumed(fun, before.records(), count - 1));
                        },
                        Err(error) => {
                            return Err(error);
                        },
                    }
                },
                Taken::EndOfStream => {
                    proof {
                        count = count + 1;
                    }
                    return Ok(true);
                },
                Taken::Pending => {
                    return Ok(false);
                },
                Taken::Failed(kind, status) => {
                    return Err(VideoError::new(kind, status));
                },
            }
        }
    }
}

} // verus!

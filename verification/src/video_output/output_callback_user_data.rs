//! What the output callback works on.

use vstd::prelude::*;
use crate::mmal::{Outcome, PortRef, Reply, Request, MMAL_EINVAL};
use crate::video_error::VideoErrorKind;
use crate::video_output::channel::{
    lemma_channel_fifo, lemma_payloads_push, payloads, record_view, Channel, ChannelView, Record,
};
use crate::video_output::output_buffer::OutputBuffer;
use crate::video_pool::{
    lemma_pool_released, lemma_pool_restored, lemma_pool_taken, BufferPool, PoolView,
};

verus! {

/// The part of the callback's context that is plain data.
#[derive(Clone, Copy, Debug)]
pub struct BridgeStatus {
    /// The port that the callback is installed on.
    pub port: PortRef,
    /// The buffer on its way back to the port, if one is.
    pub awaiting: Option<Request>,
    /// Whether the end of the stream has been passed on.
    pub end_of_stream: bool,
    /// The first error that made the session fail, if one did.
    pub failure: Option<(VideoErrorKind, u32)>,
}

/// The callback's context as a value.
pub struct UserDataView {
    pub channel: ChannelView,
    pub status: BridgeStatus,
    /// How many buffers with data the callback has been given and has taken
    /// back into the pool.
    pub completed: nat,
}

/// How a step ends at whose beginning the session's error was `before` and at
/// whose end it is `after`: with the error that came up in it, if one did.
pub open spec fn new_failure(
    before: Option<(VideoErrorKind, u32)>,
    after: Option<(VideoErrorKind, u32)>,
) -> Outcome {
    match (before, after) {
        (None, Some((kind, status))) => Outcome::Failed(kind, status),
        _ => Outcome::Finished,
    }
}

impl UserDataView {
    /// The context for a callback on `port` that works with `pool`: the
    /// channel is empty and has room for as many records as the pool has
    /// buffers.
    pub open spec fn new_spec(port: PortRef, pool: PoolView) -> UserDataView {
        UserDataView {
            channel: ChannelView::new_spec(pool.buffer_num as usize),
            status: BridgeStatus { port, awaiting: None, end_of_stream: false, failure: None },
            completed: pool.releases,
        }
    }

    /// Whether records are still passed on: the stream has not ended, and
    /// the session has not failed.
    pub open spec fn live(self) -> bool {
        !self.status.end_of_stream && self.status.failure is None
    }

    /// The context once this error has come up. The first error stays.
    pub open spec fn failed(self, kind: VideoErrorKind, status: u32) -> UserDataView {
        if self.status.failure is Some {
            self
        } else {
            UserDataView {
                status: BridgeStatus { failure: Some((kind, status)), ..self.status },
                ..self
            }
        }
    }

    /// How a step ends that began with the context `before`: with the error
    /// that came up in it, if one did.
    pub open spec fn outcome_since(self, before: UserDataView) -> Outcome {
        new_failure(before.status.failure, self.status.failure)
    }

    /// The context once this record was to be passed on. While the session
    /// is live the record is sent; a full channel is an error. Otherwise
    /// nothing is sent.
    pub open spec fn emitted(self, record: Record) -> UserDataView {
        if !self.live() {
            self
        } else if self.channel.is_full() {
            self.failed(VideoErrorKind::ChannelSend, MMAL_EINVAL)
        } else {
            UserDataView {
                channel: self.channel.sent_spec(record),
                status: BridgeStatus { end_of_stream: record is None, ..self.status },
                ..self
            }
        }
    }

    /// The context once the hardware has handed back this buffer: if it is
    /// the one that was on its way to the port, the port has taken it, and
    /// nothing is on its way any more.
    pub open spec fn entered(self, buffer: u32) -> UserDataView {
        match self.status.awaiting {
            Some(Request::SendBuffer { buffer: sent, .. }) if sent == buffer => UserDataView {
                status: BridgeStatus { awaiting: None, ..self.status },
                ..self
            },
            _ => self,
        }
    }

    /// What the callback does when the hardware hands it a buffer.
    ///
    /// A buffer without data marks the end of the stream: the end marker is
    /// passed on, once, and nothing else happens. A buffer with data is
    /// copied into a record, the record is passed on, and the buffer goes
    /// back to the pool; a buffer that the pool has not handed out is an
    /// error. Then, if the port is enabled and the session live, the pool's
    /// oldest free buffer is sent to the port; a pool without one is an
    /// error.
    pub open spec fn callback_spec(
        self,
        pool: PoolView,
        port_enabled: bool,
        buffer: u32,
        payload: Seq<u8>,
    ) -> (UserDataView, PoolView, Outcome) {
        if payload.len() == 0 {
            let after = self.emitted(None);
            (after, pool, after.outcome_since(self))
        } else {
            let emitted = self.entered(buffer).emitted(Some(payload));
            let (returned, pool) = if pool.in_flight(buffer) {
                (
                    UserDataView { completed: emitted.completed + 1, ..emitted },
                    pool.released(buffer),
                )
            } else {
                (emitted.failed(VideoErrorKind::StrayBuffer, MMAL_EINVAL), pool)
            };
            if port_enabled && returned.live() && returned.status.awaiting is None {
                if pool.free.len() > 0 {
                    let call = Request::SendBuffer { port: self.status.port, buffer: pool.free[0] };
                    (
                        UserDataView {
                            status: BridgeStatus { awaiting: Some(call), ..returned.status },
                            ..returned
                        },
                        pool.taken(),
                        Outcome::Call(call),
                    )
                } else {
                    let after = returned.failed(VideoErrorKind::PoolExhausted, MMAL_EINVAL);
                    (after, pool, after.outcome_since(self))
                }
            } else {
                (returned, pool, returned.outcome_since(self))
            }
        }
    }

    /// What the callback does when the port has answered: a buffer that the
    /// port refused goes back to the pool, first in line, and is an error.
    pub open spec fn resume_spec(self, pool: PoolView, reply: Reply) -> (
        UserDataView,
        PoolView,
        Outcome,
    ) {
        let rest = UserDataView {
            status: BridgeStatus { awaiting: None, ..self.status },
            ..self
        };
        match self.status.awaiting {
            Some(Request::SendBuffer { buffer, .. }) => if reply.succeeded_spec() {
                (rest, pool, Outcome::Finished)
            } else {
                let after = rest.failed(VideoErrorKind::BufferSubmit, reply.status_spec());
                (
                    after,
                    if pool.in_flight(buffer) {
                        pool.restored(buffer)
                    } else {
                        pool
                    },
                    after.outcome_since(self),
                )
            },
            _ => (rest, pool, Outcome::Finished),
        }
    }

    /// Whether the context is in order: the channel is first in, first out;
    /// the end marker has been sent exactly if the stream has ended, and
    /// then it is the last record that was sent and the only end marker;
    /// only a buffer can be on its way to the port.
    pub open spec fn wf(self) -> bool {
        &&& self.channel.wf()
        &&& self.status.end_of_stream <==> (self.channel.sent.len() > 0
            && self.channel.sent.last() is None)
        &&& forall|i: int| 0 <= i < self.channel.sent.len() - 1 ==> self.channel.sent[i] is Some
        &&& self.status.awaiting matches Some(call) ==> call is SendBuffer
    }

    /// Whether the context and the pool go together: both are in order, and
    /// the pool has taken back as many buffers as the callback was given
    /// with data.
    pub open spec fn wf_with(self, pool: PoolView) -> bool {
        &&& self.wf()
        &&& pool.wf()
        &&& pool.releases == self.completed
    }
}

/// A new context is in order, and goes with the pool it was made for.
pub proof fn lemma_new_user_data(port: PortRef, pool: PoolView)
    requires
        pool.wf(),
    ensures
        UserDataView::new_spec(port, pool).wf_with(pool),
{
    lemma_channel_fifo(ChannelView::new_spec(pool.buffer_num as usize), None);
}

/// The callback keeps its context and the pool in order, whatever it is
/// given.
pub proof fn lemma_callback_keeps_wf(
    user_data: UserDataView,
    pool: PoolView,
    port_enabled: bool,
    buffer: u32,
    payload: Seq<u8>,
    reply: Reply,
)
    requires
        user_data.wf_with(pool),
    ensures
        ({
            let after = user_data.callback_spec(pool, port_enabled, buffer, payload);
            after.0.wf_with(after.1)
        }),
        ({
            let after = user_data.resume_spec(pool, reply);
            after.0.wf_with(after.1)
        }),
{
    lemma_channel_fifo(user_data.channel, None);
    lemma_channel_fifo(user_data.channel, Some(payload));
    if pool.in_flight(buffer) {
        lemma_pool_released(pool, buffer);
        lemma_pool_taken(pool.released(buffer));
    }
    match user_data.status.awaiting {
        Some(Request::SendBuffer { buffer: sent, .. }) => {
            if pool.in_flight(sent) {
                lemma_pool_restored(pool, sent);
            }
        },
        _ => {},
    }
    let after = user_data.callback_spec(pool, port_enabled, buffer, payload);
    let sent = user_data.channel.sent;
    assert(after.0.channel.sent == sent || (!user_data.status.end_of_stream && (
    after.0.channel.sent == sent.push(None) || after.0.channel.sent == sent.push(Some(payload)))));
    assert(after.0.wf());
}

/// No buffer is lost: a call of the callback with data in a buffer that the
/// pool has handed out brings exactly one buffer back to the pool, a call
/// without data brings none back; and all the buffers of the pool are still
/// either free or in flight. The buffer that then goes to the port is in
/// flight.
pub proof fn lemma_callback_returns_buffer(
    user_data: UserDataView,
    pool: PoolView,
    port_enabled: bool,
    buffer: u32,
    payload: Seq<u8>,
)
    requires
        user_data.wf_with(pool),
        pool.in_flight(buffer),
    ensures
        ({
            let after = user_data.callback_spec(pool, port_enabled, buffer, payload);
            &&& after.1.releases == pool.releases + if payload.len() > 0 {
                1nat
            } else {
                0nat
            }
            &&& after.0.completed == after.1.releases
            &&& after.1.buffer_num == pool.buffer_num
            &&& payload.len() > 0 ==> (after.2 matches Outcome::Call(
                Request::SendBuffer { buffer: next, .. },
            ) ==> after.1.in_flight(next) && after.1.free.len() == pool.free.len())
            &&& payload.len() > 0 ==> (!(after.2 is Call) ==> !after.1.in_flight(buffer)
                && after.1.free.len() == pool.free.len() + 1)
            &&& payload.len() == 0 ==> after.1 == pool
        }),
{
    lemma_pool_released(pool, buffer);
    lemma_pool_taken(pool.released(buffer));
}

/// While the session is live, the callback passes on exactly what it is
/// given: after a call with data the record with that data is the last that
/// was sent, after a call without data the end marker is; and what was sent
/// before stays as it was. Once the stream has ended or the session has
/// failed, nothing more is sent.
pub proof fn lemma_callback_passes_on(
    user_data: UserDataView,
    pool: PoolView,
    port_enabled: bool,
    buffer: u32,
    payload: Seq<u8>,
)
    requires
        user_data.wf_with(pool),
    ensures
        ({
            let after = user_data.callback_spec(pool, port_enabled, buffer, payload).0;
            let record = if payload.len() > 0 {
                Some(payload)
            } else {
                None
            };
            &&& user_data.live() && !user_data.channel.is_full() ==> after.channel.sent
                == user_data.channel.sent.push(record)
            &&& user_data.live() && !user_data.channel.is_full() ==> payloads(after.channel.sent)
                == payloads(user_data.channel.sent) + payload
            &&& !(user_data.live() && !user_data.channel.is_full()) ==> after.channel
                == user_data.channel
            &&& after.channel.received == user_data.channel.received
        }),
{
    let record = if payload.len() > 0 {
        Some(payload)
    } else {
        None
    };
    lemma_payloads_push(user_data.channel.sent, record);
    if payload.len() == 0 {
        assert(payloads(user_data.channel.sent) + payload =~= payloads(user_data.channel.sent)
            + Seq::<u8>::empty());
    }
}

/// What one call of the callback does, case by case, whatever the state it
/// finds.
///
/// A buffer without data: the pool stays as it is, and no call is handed
/// out. A buffer with data that the pool has handed out: the pool takes
/// exactly this buffer back, once. While the session is live and the channel
/// has room, exactly one record is sent, as the last of all: the end marker
/// for a buffer without data, the data for one with data; what has been
/// received stays. In every other state the channel stays as it is. And when
/// all goes well with a buffer with data on an enabled port, exactly one
/// buffer is taken from the pool, the one that has been free the longest,
/// and the step is the call that sends it to the port.
pub proof fn lemma_callback_by_cases(
    user_data: UserDataView,
    pool: PoolView,
    port_enabled: bool,
    buffer: u32,
    payload: Seq<u8>,
)
    ensures
        ({
            let (after, after_pool, outcome) = user_data.callback_spec(
                pool,
                port_enabled,
                buffer,
                payload,
            );
            let record = if payload.len() > 0 {
                Some(payload)
            } else {
                None
            };
            let passing = user_data.live() && !user_data.channel.is_full();
            &&& payload.len() == 0 ==> after_pool == pool && !(outcome is Call)
            &&& payload.len() > 0 && pool.in_flight(buffer) ==> after_pool.releases == pool.releases
                + 1 && after.completed == user_data.completed + 1
            &&& payload.len() > 0 && !pool.in_flight(buffer) ==> after_pool == pool
                && after.completed == user_data.completed
            &&& passing ==> after.channel.sent == user_data.channel.sent.push(record)
                && after.channel.records == user_data.channel.records.push(record)
            &&& !passing ==> after.channel == user_data.channel
            &&& after.channel.received == user_data.channel.received
            &&& after.channel.capacity == user_data.channel.capacity
            &&& payload.len() > 0 && passing && port_enabled && pool.in_flight(buffer)
                && user_data.entered(buffer).status.awaiting is None ==> {
                &&& outcome == Outcome::Call(
                    Request::SendBuffer {
                        port: user_data.status.port,
                        buffer: pool.released(buffer).free[0],
                    },
                )
                &&& after_pool == pool.released(buffer).taken()
                &&& after.status.awaiting == Some(outcome->Call_0)
            }
            &&& outcome matches Outcome::Call(call) ==> call is SendBuffer && payload.len() > 0
                && port_enabled
        }),
{
}

/// Exactly one end marker, and it is the last: once the stream has ended,
/// the records that were sent are records with data, followed by one end
/// marker.
pub proof fn lemma_one_end_marker(user_data: UserDataView, i: int)
    requires
        user_data.wf(),
        0 <= i < user_data.channel.sent.len(),
    ensures
        user_data.channel.sent[i] is None ==> i == user_data.channel.sent.len() - 1
            && user_data.status.end_of_stream,
        user_data.status.end_of_stream ==> user_data.channel.sent.last() is None,
{
}

/// The context of the output callback: the channel that the records go
/// into, and where the session stands.
pub struct OutputCallbackUserData {
    buffer_sender: Channel,
    status: BridgeStatus,
    completed: Ghost<nat>,
}

impl View for OutputCallbackUserData {
    type V = UserDataView;

    closed spec fn view(&self) -> UserDataView {
        UserDataView {
            channel: self.buffer_sender@,
            status: self.status,
            completed: self.completed@,
        }
    }
}

impl OutputCallbackUserData {
    /// The context for a callback on `port` that works with `pool`.
    pub fn new(port: PortRef, pool: &BufferPool) -> (user_data: OutputCallbackUserData)
        ensures
            user_data@ == UserDataView::new_spec(port, pool@),
    {
        OutputCallbackUserData {
            buffer_sender: Channel::new(pool.buffer_num() as usize),
            status: BridgeStatus { port, awaiting: None, end_of_stream: false, failure: None },
            completed: Ghost(pool@.releases),
        }
    }

    /// Where the session stands.
    pub fn status(&self) -> (status: BridgeStatus)
        ensures
            status == self@.status,
    {
        self.status
    }

    /// How many records are on their way.
    pub fn len(&self) -> (len: usize)
        ensures
            len == self@.channel.records.len(),
    {
        self.buffer_sender.len()
    }

    /// Whether records are still passed on.
    pub fn live(&self) -> (live: bool)
        ensures
            live == self@.live(),
    {
        !self.status.end_of_stream && self.status.failure.is_none()
    }

    /// Takes note of an error. The first error stays.
    pub fn fail(&mut self, kind: VideoErrorKind, status: u32)
        ensures
            final(self)@ == old(self)@.failed(kind, status),
    {
        if self.status.failure.is_none() {
            self.status.failure = Some((kind, status));
        }
    }

    /// How a step ends that began when the session's error was `before`.
    pub fn outcome_since(&self, before: Option<(VideoErrorKind, u32)>) -> (outcome: Outcome)
        ensures
            outcome == new_failure(before, self@.status.failure),
    {
        match (before, self.status.failure) {
            (None, Some((kind, status))) => Outcome::Failed(kind, status),
            _ => Outcome::Finished,
        }
    }

    /// Passes a record on, while the session is live.
    pub fn emit(&mut self, record: Option<OutputBuffer>)
        ensures
            final(self)@ == old(self)@.emitted(record_view(record)),
    {
        if self.live() {
            let end_of_stream = record.is_none();
            match self.buffer_sender.send(record) {
                Ok(()) => {
                    self.status.end_of_stream = end_of_stream;
                },
                Err(_) => {
                    self.fail(VideoErrorKind::ChannelSend, MMAL_EINVAL);
                },
            }
        }
    }

    /// Takes note that the hardware has handed back this buffer.
    pub fn enter(&mut self, buffer: u32)
        ensures
            final(self)@ == old(self)@.entered(buffer),
    {
        match self.status.awaiting {
            Some(Request::SendBuffer { buffer: sent, .. }) => if sent == buffer {
                self.status.awaiting = None;
            },
            _ => {},
        }
    }

    /// Takes the oldest record out of the channel, if there is one.
    pub fn recv(&mut self) -> (record: Option<Option<OutputBuffer>>)
        ensures
            final(self)@ == (UserDataView {
                channel: old(self)@.channel.received_spec(),
                ..old(self)@
            }),
            record is None == (old(self)@.channel.records.len() == 0),
            record matches Some(received) ==> record_view(received) == old(
                self,
            )@.channel.records[0],
    {
        self.buffer_sender.recv()
    }

    /// What the callback does when the hardware hands it the buffer with the
    /// number `buffer`, filled with `payload`; how the step ends.
    pub fn on_buffer(
        &mut self,
        pool: &mut BufferPool,
        port_enabled: bool,
        buffer: u32,
        payload: &[u8],
    ) -> (outcome: Outcome)
        ensures
            final(self)@ == old(self)@.callback_spec(old(pool)@, port_enabled, buffer, payload@).0,
            final(pool)@ == old(self)@.callback_spec(old(pool)@, port_enabled, buffer, payload@).1,
            outcome == old(self)@.callback_spec(old(pool)@, port_enabled, buffer, payload@).2,
    {
        let before = self.status.failure;
        if payload.len() == 0 {
            self.emit(None);
        } else {
            self.enter(buffer);
            self.emit(Some(OutputBuffer::new(payload)));
            if pool.release(buffer) {
                self.completed = Ghost(self.completed@ + 1);
            } else {
                self.fail(VideoErrorKind::StrayBuffer, MMAL_EINVAL);
            }
            if port_enabled && self.live() && self.status.awaiting.is_none() {
                match pool.get() {
                    Some(next) => {
                        let call = Request::SendBuffer { port: self.status.port, buffer: next };
                        self.status.awaiting = Some(call);
                        return Outcome::Call(call);
                    },
                    None => {
                        self.fail(VideoErrorKind::PoolExhausted, MMAL_EINVAL);
                    },
                }
            }
        }
        self.outcome_since(before)
    }

    /// What the callback does when the port has answered; how the step ends.
    pub fn on_reply(&mut self, pool: &mut BufferPool, reply: &Reply) -> (outcome: Outcome)
        ensures
            final(self)@ == old(self)@.resume_spec(old(pool)@, *reply).0,
            final(pool)@ == old(self)@.resume_spec(old(pool)@, *reply).1,
            outcome == old(self)@.resume_spec(old(pool)@, *reply).2,
    {
        let before = self.status.failure;
        let awaiting = self.status.awaiting;
        self.status.awaiting = None;
        match awaiting {
            Some(Request::SendBuffer { buffer, .. }) => if !reply.succeeded() {
                self.fail(VideoErrorKind::BufferSubmit, reply.status());
                let _ = pool.restore(buffer);
            },
            _ => {},
        }
        self.outcome_since(before)
    }
}

} // verus!

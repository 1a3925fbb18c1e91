//! The channel between the output callback and the consumer.

use std::collections::VecDeque;
use vstd::prelude::*;
use crate::video_output::output_buffer::OutputBuffer;

verus! {

/// What travels through the channel, as a value: the bytes of a piece of
/// encoded data, or `None` for the end of the stream.
pub type Record = Option<Seq<u8>>;

/// The value of a record.
pub open spec fn record_view(record: Option<OutputBuffer>) -> Record {
    match record {
        Some(buffer) => Some(buffer@),
        None => None,
    }
}

/// All the bytes of the records, in their order. The end marker has none.
pub open spec fn payloads(records: Seq<Record>) -> Seq<u8>
    decreases records.len(),
{
    if records.len() == 0 {
        Seq::empty()
    } else {
        payloads(records.drop_last()) + match records.last() {
            Some(bytes) => bytes,
            None => Seq::empty(),
        }
    }
}

/// A channel as a value: what is in it, and all that ever went in and came
/// out.
pub struct ChannelView {
    /// How many records the channel has room for.
    pub capacity: usize,
    /// The records on their way, oldest first.
    pub records: Seq<Record>,
    /// Every record that was sent, in the order of sending.
    pub sent: Seq<Record>,
    /// Every record that was received, in the order of receiving.
    pub received: Seq<Record>,
}

impl ChannelView {
    /// An empty channel with room for `capacity` records.
    pub open spec fn new_spec(capacity: usize) -> ChannelView {
        ChannelView {
            capacity,
            records: Seq::empty(),
            sent: Seq::empty(),
            received: Seq::empty(),
        }
    }

    /// First in, first out: what was sent is what was received, followed by
    /// what is on its way; and no more is on its way than there is room for.
    pub open spec fn wf(self) -> bool {
        &&& self.sent == self.received + self.records
        &&& self.records.len() <= self.capacity
    }

    /// Whether there is no room for another record.
    pub open spec fn is_full(self) -> bool {
        self.records.len() >= self.capacity
    }

    /// The channel after this record was sent. A full channel takes nothing.
    pub open spec fn sent_spec(self, record: Record) -> ChannelView {
        if self.is_full() {
            self
        } else {
            ChannelView {
                records: self.records.push(record),
                sent: self.sent.push(record),
                ..self
            }
        }
    }

    /// The channel after its oldest record was received. An empty channel
    /// gives nothing.
    pub open spec fn received_spec(self) -> ChannelView {
        if self.records.len() == 0 {
            self
        } else {
            ChannelView {
                records: self.records.drop_first(),
                received: self.received.push(self.records[0]),
                ..self
            }
        }
    }
}

/// Sending and receiving keep the channel first in, first out.
pub proof fn lemma_channel_fifo(channel: ChannelView, record: Record)
    requires
        channel.wf(),
    ensures
        ChannelView::new_spec(channel.capacity).wf(),
        channel.sent_spec(record).wf(),
        channel.received_spec().wf(),
{
    assert(channel.sent_spec(record).sent =~= channel.sent_spec(record).received
        + channel.sent_spec(record).records);
    assert(channel.received_spec().sent =~= channel.received_spec().received
        + channel.received_spec().records);
    assert(ChannelView::new_spec(channel.capacity).sent =~= ChannelView::new_spec(
        channel.capacity,
    ).received + ChannelView::new_spec(channel.capacity).records);
}

/// The bytes of a sequence of records with one more record are the bytes of
/// the sequence, followed by those of the record.
pub proof fn lemma_payloads_push(records: Seq<Record>, record: Record)
    ensures
        payloads(records.push(record)) == payloads(records) + match record {
            Some(bytes) => bytes,
            None => Seq::empty(),
        },
{
    assert(records.push(record).drop_last() =~= records);
}

/// A bounded queue of records: the producer sends, the consumer receives, in
/// the same order. Neither waits: a full channel refuses, an empty one gives
/// nothing.
pub struct Channel {
    queue: VecDeque<Option<OutputBuffer>>,
    capacity: usize,
    sent: Ghost<Seq<Record>>,
    received: Ghost<Seq<Record>>,
}

impl View for Channel {
    type V = ChannelView;

    closed spec fn view(&self) -> ChannelView {
        ChannelView {
            capacity: self.capacity,
            records: self.queue@.map_values(|record: Option<OutputBuffer>| record_view(record)),
            sent: self.sent@,
            received: self.received@,
        }
    }
}

impl Channel {
    /// An empty channel with room for `capacity` records.
    pub fn new(capacity: usize) -> (channel: Channel)
        ensures
            channel@ == ChannelView::new_spec(capacity),
    {
        let channel = Channel {
            queue: VecDeque::new(),
            capacity,
            sent: Ghost(Seq::empty()),
            received: Ghost(Seq::empty()),
        };
        assert(channel@.records =~= Seq::empty());
        channel
    }

    /// How many records are on their way.
    pub fn len(&self) -> (len: usize)
        ensures
            len == self@.records.len(),
    {
        proof {
            vstd::std_specs::vecdeque::axiom_spec_len(&self.queue);
        }
        self.queue.len()
    }

    /// How many records the channel has room for.
    pub fn capacity(&self) -> (capacity: usize)
        ensures
            capacity == self@.capacity,
    {
        self.capacity
    }

    /// Sends a record, unless the channel is full: then the record comes
    /// back.
    pub fn send(&mut self, record: Option<OutputBuffer>) -> (refused: Result<
        (),
        Option<OutputBuffer>,
    >)
        ensures
            final(self)@ == old(self)@.sent_spec(record_view(record)),
            refused is Err == old(self)@.is_full(),
            refused matches Err(back) ==> back == record,
    {
        if self.len() >= self.capacity {
            Err(record)
        } else {
            let ghost value = record_view(record);
            self.queue.push_back(record);
            self.sent = Ghost(self.sent@.push(value));
            assert(self@.records =~= old(self)@.records.push(value));
            Ok(())
        }
    }

    /// Receives the oldest record, if there is one.
    pub fn recv(&mut self) -> (record: Option<Option<OutputBuffer>>)
        ensures
            final(self)@ == old(self)@.received_spec(),
            record is None == (old(self)@.records.len() == 0),
            record matches Some(received) ==> record_view(received) == old(self)@.records[0],
    {
        let record = self.queue.pop_front();
        match record {
            Some(received) => {
                let ghost value = record_view(received);
                self.received = Ghost(self.received@.push(value));
                assert(self@.records =~= old(self)@.records.drop_first());
                Some(received)
            },
            None => None,
        }
    }
}

} // verus!

//! The frame producer: gathers mono samples at the canonical rate, cuts them
//! into frames and offers the frames to the bounded frame queue without ever
//! waiting. A frame that the queue has no room for is dropped and counted.

use vstd::prelude::*;
use crate::frame::{Frame, FRAME_SIZE};

verus! {

/// Capacity of the frame queue, in frames (about eight seconds).
pub const FRAME_QUEUE_CAPACITY: usize = 256;

/// Capacity of the segment queue, in segments.
pub const SEGMENT_QUEUE_CAPACITY: usize = 10;

/// Makes `crossbeam_channel::Sender`, the sending side of a queue between
/// threads, known as a type of which nothing is seen inside.
#[verifier::external_type_specification]
#[verifier::external_body]
#[verifier::reject_recursive_types(T)]
pub struct ExSender<T>(crossbeam_channel::Sender<T>);

/// What became of a frame that was offered to the queue.
#[derive(Clone, Copy, Debug)]
pub enum Offer {
    /// The queue took the frame.
    Accepted,
    /// The queue was full; the frame is lost.
    Full,
    /// Nobody reads the queue any more; the frame is lost.
    Closed,
}

/// Calls `crossbeam_channel::Sender::try_send`, which never waits, and says
/// which of its three outcomes came back. The outcome depends on what the
/// reading thread has done, so nothing is promised of it.
#[verifier::external_body]
fn try_send_frame<T>(queue: &crossbeam_channel::Sender<Frame<T>>, frame: Frame<T>) -> Offer {
    match queue.try_send(frame) {
        Ok(()) => Offer::Accepted,
        Err(crossbeam_channel::TrySendError::Full(_)) => Offer::Full,
        Err(crossbeam_channel::TrySendError::Disconnected(_)) => Offer::Closed,
    }
}

/// Cuts the oldest `size` samples off `pending`, if there are that many.
/// The frame producer cuts its frames this way, and a resampler that
/// works on blocks of a fixed size is fed this way.
pub fn take_block<T>(pending: &mut Vec<T>, size: usize) -> (r: Option<Vec<T>>)
    ensures
        r is Some <==> old(pending)@.len() >= size,
        r matches Some(block) ==> block@ == old(pending)@.take(size as int) && final(pending)@ == old(
            pending,
        )@.skip(size as int),
        r is None ==> final(pending)@ == old(pending)@,
{
    if pending.len() < size {
        return None;
    }
    let mut head = pending.split_off(size);
    std::mem::swap(&mut head, pending);
    assert(head@ =~= old(pending)@.take(size as int));
    assert(pending@ =~= old(pending)@.skip(size as int));
    Some(head)
}

/// `count` plus `more`, stopping at the largest value.
pub open spec fn bumped(count: nat, more: nat) -> nat {
    if count + more <= u64::MAX {
        count + more
    } else {
        u64::MAX as nat
    }
}

/// The producer as a mathematical value.
pub ghost struct ProducerModel<T> {
    /// Samples waiting to fill a frame, oldest first.
    pub pending: Seq<T>,
    /// Frames that the queue took.
    pub accepted: nat,
    /// Frames that were lost because the queue was full.
    pub dropped: nat,
}

impl<T> ProducerModel<T> {
    /// Number of whole frames that can be cut from the pending samples.
    pub open spec fn ready(self) -> nat {
        self.pending.len() / (FRAME_SIZE as nat)
    }

    /// The state after cutting one frame off the front.
    pub open spec fn without_first(self) -> Self {
        ProducerModel { pending: self.pending.skip(FRAME_SIZE as int), ..self }
    }

    /// The state after noting what the queue did with a frame.
    pub open spec fn noted(self, outcome: Offer) -> Self {
        match outcome {
            Offer::Accepted => ProducerModel { accepted: bumped(self.accepted, 1), ..self },
            Offer::Full => ProducerModel { dropped: bumped(self.dropped, 1), ..self },
            Offer::Closed => self,
        }
    }
}

/// What one round of offering frames did.
#[derive(Clone, Copy, Debug)]
pub struct Pumped {
    /// Frames cut and offered to the queue.
    pub offered: usize,
    /// Frames among them that the queue took.
    pub accepted: usize,
    /// Frames among them that were lost because the queue was full.
    pub dropped: usize,
    /// Whether the round stopped because nobody reads the queue any more;
    /// the frame offered last is lost then.
    pub closed: bool,
}

/// The frame producer.
pub struct FrameProducer<T> {
    pending: Vec<T>,
    accepted: u64,
    dropped: u64,
}

impl<T> View for FrameProducer<T> {
    type V = ProducerModel<T>;

    closed spec fn view(&self) -> ProducerModel<T> {
        ProducerModel {
            pending: self.pending@,
            accepted: self.accepted as nat,
            dropped: self.dropped as nat,
        }
    }
}

impl<T> FrameProducer<T> {
    /// A producer with nothing pending and nothing counted.
    pub fn new() -> (p: FrameProducer<T>)
        ensures
            p@ == (ProducerModel::<T> { pending: Seq::empty(), accepted: 0, dropped: 0 }),
    {
        FrameProducer { pending: Vec::new(), accepted: 0, dropped: 0 }
    }

    /// Number of samples waiting to fill a frame.
    pub fn pending_len(&self) -> (n: usize)
        ensures
            n == self@.pending.len(),
    {
        self.pending.len()
    }

    /// Number of frames that the queue took.
    pub fn accepted(&self) -> (n: u64)
        ensures
            n == self@.accepted,
    {
        self.accepted
    }

    /// Number of frames lost because the queue was full.
    pub fn dropped(&self) -> (n: u64)
        ensures
            n == self@.dropped,
    {
        self.dropped
    }

    /// Adds captured samples behind those already pending and leaves
    /// `samples` empty.
    pub fn push_samples(&mut self, samples: &mut Vec<T>)
        ensures
            final(self)@ == (ProducerModel { pending: old(self)@.pending + old(samples)@, ..old(self)@ }),
            final(samples)@.len() == 0,
    {
        self.pending.append(samples);
    }

    /// Cuts the oldest `FRAME_SIZE` pending samples off as a frame, if there
    /// are that many.
    pub fn next_frame(&mut self) -> (r: Option<Frame<T>>)
        ensures
            r is Some <==> old(self)@.pending.len() >= FRAME_SIZE,
            r matches Some(f) ==> f@ == old(self)@.pending.take(FRAME_SIZE as int) && final(self)@
                == old(self)@.without_first(),
            r is None ==> final(self)@ == old(self)@,
    {
        match take_block(&mut self.pending, FRAME_SIZE) {
            Some(head) => Frame::new(head),
            None => None,
        }
    }

    /// Notes what the queue did with a frame: a taken frame and a frame lost
    /// to a full queue are counted, each counter stopping at its largest
    /// value.
    pub fn note(&mut self, outcome: Offer)
        ensures
            final(self)@ == old(self)@.noted(outcome),
    {
        match outcome {
            Offer::Accepted => {
                if self.accepted < u64::MAX {
                    self.accepted = self.accepted + 1;
                }
            },
            Offer::Full => {
                if self.dropped < u64::MAX {
                    self.dropped = self.dropped + 1;
                }
            },
            Offer::Closed => {},
        }
    }

    /// Cuts frames off the pending samples and offers each to `queue`,
    /// oldest first, until fewer than `FRAME_SIZE` samples are left or the
    /// queue turns out to be closed. The caller never waits: a frame that
    /// the queue does not take is lost.
    ///
    /// Which frames the queue takes is up to the queue. Whatever it
    /// answers, the frames offered are the first `offered` frames of the
    /// pending samples and the rest stays pending; unless the queue is
    /// closed, every whole frame is offered; each frame offered is taken,
    /// or dropped and counted, or met the closed queue.
    pub fn pump(&mut self, queue: &crossbeam_channel::Sender<Frame<T>>) -> (r: Pumped)
        ensures
            r.offered <= old(self)@.ready(),
            !r.closed ==> r.offered == old(self)@.ready(),
            r.offered == r.accepted + r.dropped + if r.closed {
                1int
            } else {
                0int
            },
            final(self)@ == (ProducerModel {
                pending: old(self)@.pending.skip(r.offered * FRAME_SIZE),
                accepted: bumped(old(self)@.accepted, r.accepted as nat),
                dropped: bumped(old(self)@.dropped, r.dropped as nat),
            }),
    {
        let mut offered: usize = 0;
        let mut accepted: usize = 0;
        let mut dropped: usize = 0;
        let ghost start = self@;
        assert(self.pending@ =~= start.pending.skip(0));
        assert(start.pending.len() == self.pending.len());
        loop
            invariant
                start == old(self)@,
                start.pending.len() <= usize::MAX,
                offered * 512 + self@.pending.len() == start.pending.len(),
                offered == accepted + dropped,
                self@ == (ProducerModel {
                    pending: start.pending.skip(offered * 512),
                    accepted: bumped(start.accepted, accepted as nat),
                    dropped: bumped(start.dropped, dropped as nat),
                }),
            decreases self@.pending.len(),
        {
            let ghost before = self@.pending;
            match self.next_frame() {
                None => {
                    return Pumped { offered, accepted, dropped, closed: false };
                },
                Some(frame) => {
                    assert(before.skip(512) =~= start.pending.skip((offered + 1) * 512));
                    offered = offered + 1;
                    let outcome = try_send_frame(queue, frame);
                    self.note(outcome);
                    match outcome {
                        Offer::Accepted => {
                            accepted = accepted + 1;
                        },
                        Offer::Full => {
                            dropped = dropped + 1;
                        },
                        Offer::Closed => {
                            return Pumped { offered, accepted, dropped, closed: true };
                        },
                    }
                },
            }
        }
    }
}

/// What can happen to the samples of a producer.
pub ghost enum ProducerEvent<T> {
    /// Captured samples are added.
    Push(Seq<T>),
    /// A frame is cut off, if there are enough samples.
    Cut,
}

/// The frames cut and the samples left pending after a run of events on a
/// fresh producer.
pub open spec fn cut_stream<T>(events: Seq<ProducerEvent<T>>) -> (Seq<Seq<T>>, Seq<T>)
    decreases events.len(),
{
    if events.len() == 0 {
        (seq![], seq![])
    } else {
        let (frames, pending) = cut_stream(events.drop_last());
        match events.last() {
            ProducerEvent::Push(samples) => (frames, pending + samples),
            ProducerEvent::Cut => if pending.len() >= FRAME_SIZE {
                (frames.push(pending.take(FRAME_SIZE as int)), pending.skip(FRAME_SIZE as int))
            } else {
                (frames, pending)
            },
        }
    }
}

/// All samples added in a run of events, in order.
pub open spec fn pushed<T>(events: Seq<ProducerEvent<T>>) -> Seq<T>
    decreases events.len(),
{
    if events.len() == 0 {
        seq![]
    } else {
        match events.last() {
            ProducerEvent::Push(samples) => pushed(events.drop_last()) + samples,
            ProducerEvent::Cut => pushed(events.drop_last()),
        }
    }
}

/// Whatever is added and whenever frames are cut: every frame holds
/// exactly `FRAME_SIZE` samples, frame `i` is block `i` of the samples
/// added, and the samples after the last frame are those left pending.
/// No sample is lost, repeated or moved.
pub proof fn theorem_frames_are_blocks_of_the_stream<T>(events: Seq<ProducerEvent<T>>)
    ensures
        ({
            let (frames, pending) = cut_stream(events);
            let all = pushed(events);
            &&& all.len() == frames.len() * FRAME_SIZE + pending.len()
            &&& pending == all.skip(frames.len() * FRAME_SIZE)
            &&& forall|i: int|
                0 <= i < frames.len() ==> #[trigger] frames[i] == all.subrange(
                    i * FRAME_SIZE,
                    (i + 1) * FRAME_SIZE,
                )
        }),
    decreases events.len(),
{
    if events.len() == 0 {
        assert(pushed(events).skip(0) =~= pushed(events));
    } else {
        let front = events.drop_last();
        theorem_frames_are_blocks_of_the_stream(front);
        let (frames0, pending0) = cut_stream(front);
        let all0 = pushed(front);
        let (frames, pending) = cut_stream(events);
        let all = pushed(events);
        let n = frames0.len() as int;
        match events.last() {
            ProducerEvent::Push(samples) => {
                assert(pending =~= all.skip(n * 512));
                assert forall|i: int| 0 <= i < frames.len() implies #[trigger] frames[i]
                    == all.subrange(i * FRAME_SIZE, (i + 1) * FRAME_SIZE) by {
                    assert(frames0[i] == all0.subrange(i * 512, (i + 1) * 512));
                    assert(all0.subrange(i * 512, (i + 1) * 512) =~= all.subrange(
                        i * 512,
                        (i + 1) * 512,
                    ));
                }
            },
            ProducerEvent::Cut => {
                if pending0.len() >= FRAME_SIZE {
                    assert(pending =~= all.skip((n + 1) * 512));
                    assert forall|i: int| 0 <= i < frames.len() implies #[trigger] frames[i]
                        == all.subrange(i * FRAME_SIZE, (i + 1) * FRAME_SIZE) by {
                        if i < n {
                            assert(frames0[i] == all0.subrange(i * 512, (i + 1) * 512));
                        } else {
                            assert(frames[i] =~= all.subrange(n * 512, (n + 1) * 512));
                        }
                    }
                }
            },
        }
    }
}

} // verus!

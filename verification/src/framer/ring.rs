//! The lock-free rings that carry frames between the stages of the pipeline.
//!
//! A ring has two ends, which may be held by different threads. What one end
//! can know of the ring at any moment is therefore little: whether the ring
//! is full or empty when the call is made is not known beforehand. What is
//! known of each end is its own history: the frames that the producing end
//! has handed over so far, and the frames that the consuming end has taken
//! out so far.

use vstd::prelude::*;
use ringbuf::{Consumer, Producer};
use crate::framer::frame::InternalFrame;

verus! {

/// `ringbuf::Producer`: the producing end of a ring. The proofs see
/// nothing of what is inside it.
#[verifier::external_type_specification]
#[verifier::external_body]
#[verifier::reject_recursive_types(T)]
pub struct ExProducer<T>(Producer<T>);

/// `ringbuf::Consumer`: the consuming end of a ring. The proofs see
/// nothing of what is inside it.
#[verifier::external_type_specification]
#[verifier::external_body]
#[verifier::reject_recursive_types(T)]
pub struct ExConsumer<T>(Consumer<T>);

/// The frames that the ring has accepted from this producing end since the
/// ring was made, oldest first.
pub uninterp spec fn ring_accepted(producer: Producer<InternalFrame>) -> Seq<InternalFrame>;

/// The frames that this consuming end has taken out of the ring since the
/// ring was made, oldest first.
pub uninterp spec fn ring_delivered(consumer: Consumer<InternalFrame>) -> Seq<InternalFrame>;

/// `ringbuf::Producer::push`: offers one frame to the ring. The ring either
/// takes the frame in, behind all that it took before, or, being full,
/// refuses it; which of the two happens depends on what the other end has
/// done, and nothing is claimed of it.
#[verifier::external_body]
pub(crate) fn ring_push(producer: &mut Producer<InternalFrame>, frame: InternalFrame) -> (accepted: bool)
    ensures
        ring_accepted(*final(producer)) == if accepted {
            ring_accepted(*old(producer)).push(frame)
        } else {
            ring_accepted(*old(producer))
        },
{
    producer.push(frame).is_ok()
}

/// `ringbuf::Consumer::pop`: takes the oldest frame out of the ring, if the
/// ring holds one. Whether it holds one depends on what the other end has
/// done, and nothing is claimed of it.
#[verifier::external_body]
pub(crate) fn ring_pop(consumer: &mut Consumer<InternalFrame>) -> (frame: Option<InternalFrame>)
    ensures
        ring_delivered(*final(consumer)) == match frame {
            Some(frame) => ring_delivered(*old(consumer)).push(frame),
            None => ring_delivered(*old(consumer)),
        },
{
    consumer.pop()
}

} // verus!

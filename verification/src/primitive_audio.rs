//! The audio device: a fixed-capacity ring of signed 16-bit samples shared
//! between the emulated program (producer side, reached through the MMU)
//! and the host's playback loop (consumer side). The ring itself comes from
//! the `rb` crate; a consumer running on another thread may drain it at any
//! moment, so nothing about its momentary contents or fill level is stable
//! between two calls. What *is* stable is the sequence of samples this
//! side has handed to the ring: the device half carries it as a ghost log,
//! and every store through the MMU is proved to append exactly one sample
//! to it.

use rb::RB;
use rb::RbInspector;
use rb::RbProducer;
use vstd::prelude::*;

verus! {

/// The ring holds eight seconds of audio at 44.1 kHz.
pub const AUDIO_RING_CAPACITY: usize = 44100 * 8;

#[verifier::external_type_specification]
#[verifier::external_body]
#[verifier::reject_recursive_types(T)]
pub struct ExSpscRb<T>(rb::SpscRb<T>);

#[verifier::external_type_specification]
#[verifier::external_body]
#[verifier::reject_recursive_types(T)]
pub struct ExRbProducer<T>(rb::Producer<T>);

#[verifier::external_type_specification]
#[verifier::external_body]
#[verifier::reject_recursive_types(T)]
pub struct ExRbConsumer<T>(rb::Consumer<T>);

/// The device half the MMU writes into: a producer view plus the ring
/// handle that reports the fill level, and the ghost log of every sample
/// handed to the ring, oldest first.
pub struct PrimitiveAudioReciever {
    internal_buffer: rb::Producer<i16>,
    buffer: rb::SpscRb<i16>,
    handed: Ghost<Seq<i16>>,
}

impl PrimitiveAudioReciever {
    /// The samples handed to the ring so far, oldest first. Unlike the
    /// ring's momentary contents, this log is untouched by the consumer.
    pub closed spec fn handed_log(&self) -> Seq<i16> {
        self.handed@
    }

    /// Enqueues one sample. Relies on `rb::RbProducer::write` (rb 0.4),
    /// which returns without blocking and leaves the ring unchanged when it
    /// is full; a sample that does not fit is dropped. Either way the
    /// sample was handed to the ring, so the log grows by exactly it.
    #[verifier::external_body]
    pub fn write(&mut self, val: i16)
        ensures
            final(self).handed_log() == old(self).handed_log().push(val),
    {
        let _ = self.internal_buffer.write(&[val]);
    }

    /// The number of samples buffered and not yet played. Relies on
    /// `rb::RbInspector::count` (rb 0.4): the count never exceeds the
    /// capacity the ring was made with, which here is always
    /// [`AUDIO_RING_CAPACITY`] (the one constructor passes nothing else).
    /// A concurrent consumer may change the count at any moment, so
    /// nothing more is promised of the result.
    #[verifier::external_body]
    pub fn get_size(&self) -> (r: u32)
        ensures
            r <= AUDIO_RING_CAPACITY as u32,
    {
        self.buffer.count() as u32
    }
}

/// The device half the host drains for playback.
pub struct PrimitiveAudioProducer {
    pub internal_buffer: rb::Consumer<i16>,
}

/// Relies on `rb::SpscRb::new`, `rb::RB::producer` and `rb::RB::consumer`
/// (rb 0.4): makes one ring of the given capacity and hands back its
/// producer view, its inspection handle and its consumer view.
#[verifier::external_body]
fn new_ring(capacity: usize) -> (r: (rb::Producer<i16>, rb::SpscRb<i16>, rb::Consumer<i16>)) {
    let rb = rb::SpscRb::new(capacity);
    let (cons, prod) = (rb.consumer(), rb.producer());
    (prod, rb, cons)
}

/// A fresh audio ring sized for eight seconds of 44.1 kHz audio, split
/// into its device half and its playback half; its log of handed samples
/// starts empty.
pub fn create_primitive_audio_pair() -> (r: (PrimitiveAudioReciever, PrimitiveAudioProducer))
    ensures
        r.0.handed_log() == Seq::<i16>::empty(),
{
    let (prod, ring, cons) = new_ring(AUDIO_RING_CAPACITY);
    (
        PrimitiveAudioReciever {
            internal_buffer: prod,
            buffer: ring,
            handed: Ghost(Seq::empty()),
        },
        PrimitiveAudioProducer { internal_buffer: cons },
    )
}

} // verus!

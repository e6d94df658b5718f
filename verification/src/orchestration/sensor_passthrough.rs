//! Sensor telemetry passthrough to the guest's virtio-input devices at
//! 120 Hz: accelerometer, gyroscope, barometer, battery and GNSS samples.
//!
//! The dispatcher keeps the last two seconds of samples in a ring buffer;
//! it is generic over the sample type, which the caller defines.
use vstd::prelude::*;
use std::collections::VecDeque;

verus! {

/// Rate at which samples are injected.
pub const TARGET_SAMPLE_RATE_HZ: u32 = 120;
/// Capacity of the ring buffer: two seconds at 120 Hz.
pub const MAX_RING_BUFFER_SAMPLES: usize = 240;

pub struct VirtioInputSensorDispatcher<S> {
    sample_rate_hz: u32,
    total_injected_events: u64,
    ring_buffer: VecDeque<S>,
    is_active: bool,
}

/// The abstract dispatcher: whether it is active, its rate, how many
/// samples it injected, and the samples it keeps, oldest first.
pub struct SensorView<S> {
    pub is_active: bool,
    pub sample_rate_hz: u32,
    pub total_injected_events: u64,
    pub samples: Seq<S>,
}

/// The samples kept after injecting `sample`: the oldest one is dropped
/// when the buffer is full.
pub open spec fn ring_after_push<S>(samples: Seq<S>, sample: S) -> Seq<S> {
    if samples.len() >= MAX_RING_BUFFER_SAMPLES {
        samples.drop_first().push(sample)
    } else {
        samples.push(sample)
    }
}

impl<S> View for VirtioInputSensorDispatcher<S> {
    type V = SensorView<S>;

    closed spec fn view(&self) -> SensorView<S> {
        SensorView {
            is_active: self.is_active,
            sample_rate_hz: self.sample_rate_hz,
            total_injected_events: self.total_injected_events,
            samples: self.ring_buffer@,
        }
    }
}

impl<S> VirtioInputSensorDispatcher<S> {
    /// The buffer never holds more than [`MAX_RING_BUFFER_SAMPLES`].
    pub open spec fn wf(&self) -> bool {
        self@.samples.len() <= MAX_RING_BUFFER_SAMPLES
    }

    /// An active dispatcher at [`TARGET_SAMPLE_RATE_HZ`] with no samples.
    pub fn new() -> (r: Self)
        ensures
            r.wf(),
            r@ == (SensorView::<S> {
                is_active: true,
                sample_rate_hz: TARGET_SAMPLE_RATE_HZ,
                total_injected_events: 0,
                samples: Seq::empty(),
            }),
    {
        VirtioInputSensorDispatcher {
            sample_rate_hz: TARGET_SAMPLE_RATE_HZ,
            total_injected_events: 0,
            ring_buffer: VecDeque::with_capacity(MAX_RING_BUFFER_SAMPLES),
            is_active: true,
        }
    }

    pub fn set_active(&mut self, active: bool)
        ensures
            final(self)@ == (SensorView { is_active: active, ..old(self)@ }),
    {
        self.is_active = active;
    }

    pub fn is_active(&self) -> (r: bool)
        ensures
            r == self@.is_active,
    {
        self.is_active
    }

    pub fn sample_rate_hz(&self) -> (r: u32)
        ensures
            r == self@.sample_rate_hz,
    {
        self.sample_rate_hz
    }

    pub fn total_injected_events(&self) -> (r: u64)
        ensures
            r == self@.total_injected_events,
    {
        self.total_injected_events
    }

    /// Injects a sample when active, dropping the oldest one if the buffer
    /// is full; an inactive dispatcher ignores it.
    pub fn inject_sample(&mut self, sample: S)
        requires
            old(self).wf(),
            old(self)@.total_injected_events < u64::MAX,
        ensures
            final(self).wf(),
            !old(self)@.is_active ==> final(self)@ == old(self)@,
            old(self)@.is_active ==> final(self)@ == (SensorView {
                total_injected_events: (old(self)@.total_injected_events + 1) as u64,
                samples: ring_after_push(old(self)@.samples, sample),
                ..old(self)@
            }),
    {
        if !self.is_active {
            return;
        }
        if self.ring_buffer.len() >= MAX_RING_BUFFER_SAMPLES {
            let _ = self.ring_buffer.pop_front();
        }
        self.ring_buffer.push_back(sample);
        self.total_injected_events = self.total_injected_events + 1;
    }

    /// The most recent sample, if any.
    pub fn latest_sample(&self) -> (r: Option<&S>)
        ensures
            self@.samples.len() == 0 ==> r is None,
            self@.samples.len() > 0 ==> r is Some && *r->Some_0 == self@.samples.last(),
    {
        let n = self.ring_buffer.len();
        if n == 0 {
            None
        } else {
            Some(&self.ring_buffer[n - 1])
        }
    }
}

/// The sample just injected is the latest one, and the buffer keeps the
/// most recent samples in order, never more than its capacity.
pub proof fn lemma_ring_keeps_latest<S>(samples: Seq<S>, sample: S)
    requires
        samples.len() <= MAX_RING_BUFFER_SAMPLES,
    ensures
        ring_after_push(samples, sample).last() == sample,
        ring_after_push(samples, sample).len() <= MAX_RING_BUFFER_SAMPLES,
        ring_after_push(samples, sample).drop_last() == if samples.len() >= MAX_RING_BUFFER_SAMPLES {
            samples.drop_first()
        } else {
            samples
        },
{
    if samples.len() >= MAX_RING_BUFFER_SAMPLES {
        assert(samples.drop_first().push(sample).drop_last() =~= samples.drop_first());
    } else {
        assert(samples.push(sample).drop_last() =~= samples);
    }
}

} // verus!

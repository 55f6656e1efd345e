//! The audio sink's side of playback: which output profile to ask the device
//! for, the bounded queue of samples between the engine and the device, and
//! what the device's callback hands out of it.

use std::collections::VecDeque;
use vstd::prelude::*;

use crate::playback::EQUILIBRIUM;

verus! {

/// How a device stores one sample.
#[derive(Debug, Clone, Copy, PartialEq, Eq, Structural)]
pub enum SampleFormat {
    I8,
    I16,
    I32,
    I64,
    U8,
    U16,
    U32,
    U64,
    F32,
    F64,
}

/// One output profile that a device offers: a layout of samples and the
/// range of sample rates it can run at.
#[derive(Debug, Clone, Copy, PartialEq, Eq, Structural)]
pub struct OutputProfile {
    pub channels: u16,
    pub format: SampleFormat,
    pub min_sample_rate: u32,
    pub max_sample_rate: u32,
}

impl OutputProfile {
    /// The one layout that the player can feed: two channels of signed
    /// 16-bit samples.
    pub open spec fn playable(self) -> bool {
        self.channels == 2 && self.format == SampleFormat::I16
    }

    /// Whether the profile can run at `rate`.
    pub open spec fn offers_rate(self, rate: u32) -> bool {
        self.min_sample_rate <= rate <= self.max_sample_rate
    }

    /// Whether the player can feed the profile at `rate`.
    pub open spec fn suits(self, rate: u32) -> bool {
        self.playable() && self.offers_rate(rate)
    }

    pub fn is_playable(&self) -> (b: bool)
        ensures
            b == self.playable(),
    {
        self.channels == 2 && self.format == SampleFormat::I16
    }

    pub fn has_rate(&self, rate: u32) -> (b: bool)
        ensures
            b == self.offers_rate(rate),
    {
        self.min_sample_rate <= rate && rate <= self.max_sample_rate
    }
}

/// Why no output stream could be made.
#[derive(Debug, Clone, Copy, PartialEq, Eq, Structural)]
pub enum SinkError {
    /// The host has no output device.
    NoDevice,
    /// The device offers no playable profile.
    NoProfile,
    /// The device offers playable profiles, and none of them can run at the
    /// rate asked for.
    NoSampleRate,
}

/// Whether any of `profiles` is playable.
pub open spec fn any_playable(profiles: Seq<OutputProfile>) -> bool {
    exists|k: int| 0 <= k < profiles.len() && #[trigger] profiles[k].playable()
}

/// Whether `index` is where the first of `profiles` stands that the player
/// can feed at `rate`.
pub open spec fn is_first_suitable(profiles: Seq<OutputProfile>, rate: u32, index: int) -> bool {
    &&& 0 <= index < profiles.len()
    &&& profiles[index].suits(rate)
    &&& forall|j: int| 0 <= j < index ==> !#[trigger] profiles[j].suits(rate)
}

/// The choice of an output profile: the first that is playable and can run
/// at `rate`.
pub open spec fn profile_choice(device: Option<Seq<OutputProfile>>, rate: u32) -> Result<
    int,
    SinkError,
> {
    match device {
        None => Err(SinkError::NoDevice),
        Some(profiles) => if exists|i: int| is_first_suitable(profiles, rate, i) {
            Ok(choose|i: int| is_first_suitable(profiles, rate, i))
        } else if any_playable(profiles) {
            Err(SinkError::NoSampleRate)
        } else {
            Err(SinkError::NoProfile)
        },
    }
}

/// The first suitable profile stands at one index only.
pub proof fn lemma_first_suitable_is_unique(
    profiles: Seq<OutputProfile>,
    rate: u32,
    a: int,
    b: int,
)
    requires
        is_first_suitable(profiles, rate, a),
        is_first_suitable(profiles, rate, b),
    ensures
        a == b,
{
    if a < b {
        assert(!profiles[a].suits(rate));
    }
    if b < a {
        assert(!profiles[b].suits(rate));
    }
}

/// Chooses the output profile of the default output device, whose profiles
/// are `device`, or `None` where the host has no output device.
pub fn select_profile(device: &Option<Vec<OutputProfile>>, rate: u32) -> (choice: Result<
    usize,
    SinkError,
>)
    ensures
        match profile_choice(
            match device {
                Some(profiles) => Some(profiles@),
                None => None,
            },
            rate,
        ) {
            Ok(index) => choice == Ok::<usize, SinkError>(index as usize),
            Err(e) => choice == Err::<usize, SinkError>(e),
        },
        match choice {
            Ok(index) => device matches Some(profiles) && is_first_suitable(
                profiles@,
                rate,
                index as int,
            ),
            Err(SinkError::NoDevice) => device is None,
            Err(SinkError::NoProfile) => device matches Some(profiles) && !any_playable(
                profiles@,
            ),
            Err(SinkError::NoSampleRate) => device matches Some(profiles) && any_playable(
                profiles@,
            ) && forall|k: int| 0 <= k < profiles.len() ==> !#[trigger] profiles[k].suits(rate),
        },
{
    match device {
        None => Err(SinkError::NoDevice),
        Some(profiles) => {
            let mut index: usize = 0;
            let mut playable_seen = false;
            while index < profiles.len()
                invariant
                    index <= profiles.len(),
                    *device == Some(*profiles),
                    forall|k: int| 0 <= k < index ==> !#[trigger] profiles[k].suits(rate),
                    playable_seen == exists|k: int|
                        0 <= k < index && #[trigger] profiles[k].playable(),
                decreases profiles.len() - index,
            {
                if profiles[index].is_playable() {
                    if profiles[index].has_rate(rate) {
                        proof {
                            let found = index as int;
                            assert(is_first_suitable(profiles@, rate, found));
                            let chosen = choose|i: int| is_first_suitable(profiles@, rate, i);
                            lemma_first_suitable_is_unique(profiles@, rate, found, chosen);
                        }
                        return Ok(index);
                    }
                    playable_seen = true;
                }
                index += 1;
            }
            proof {
                assert forall|i: int| !is_first_suitable(profiles@, rate, i) by {
                    if 0 <= i < profiles.len() {
                        assert(!profiles[i].suits(rate));
                    }
                }
            }
            if playable_seen {
                Err(SinkError::NoSampleRate)
            } else {
                Err(SinkError::NoProfile)
            }
        },
    }
}

/// The samples on their way to the device, oldest first, never more than
/// the queue's capacity.
pub struct SampleQueue {
    samples: VecDeque<i16>,
    capacity: usize,
}

impl View for SampleQueue {
    type V = Seq<i16>;

    closed spec fn view(&self) -> Seq<i16> {
        self.samples@
    }
}

/// What one callback of the device hears: the queue's samples, oldest first,
/// as far as they reach, and silence for the rest of the frame.
pub open spec fn frame_of(queue: Seq<i16>, frame_len: nat) -> Seq<i16> {
    Seq::new(
        frame_len,
        |i: int|
            if i < queue.len() {
                queue[i]
            } else {
                EQUILIBRIUM
            },
    )
}

/// What one callback of the device leaves in the queue.
pub open spec fn queue_after_frame(queue: Seq<i16>, frame_len: nat) -> Seq<i16> {
    if frame_len >= queue.len() {
        Seq::empty()
    } else {
        queue.skip(frame_len as int)
    }
}

/// What the device hears over `cycles` callbacks in a row, each of
/// `frame_len` samples, with nothing put into the queue meanwhile.
pub open spec fn starved_output(queue: Seq<i16>, cycles: nat, frame_len: nat) -> Seq<i16>
    decreases cycles,
{
    if cycles == 0 {
        Seq::empty()
    } else {
        frame_of(queue, frame_len) + starved_output(
            queue_after_frame(queue, frame_len),
            (cycles - 1) as nat,
            frame_len,
        )
    }
}

impl SampleQueue {
    pub closed spec fn capacity(&self) -> nat {
        self.capacity as nat
    }

    pub closed spec fn wf(&self) -> bool {
        self.samples@.len() <= self.capacity
    }

    pub fn new(capacity: usize) -> (queue: Self)
        ensures
            queue.wf(),
            queue@.len() == 0,
            queue.capacity() == capacity,
    {
        SampleQueue { samples: VecDeque::new(), capacity }
    }

    pub fn len(&self) -> (len: usize)
        requires
            self.wf(),
        ensures
            len == self@.len(),
            len <= self.capacity(),
    {
        self.samples.len()
    }

    pub fn is_full(&self) -> (full: bool)
        requires
            self.wf(),
        ensures
            full == (self@.len() == self.capacity()),
    {
        self.samples.len() >= self.capacity
    }

    /// Queues `sample` behind the others, unless the queue is full: then the
    /// queue stays as it is and the caller has to wait.
    pub fn try_push(&mut self, sample: i16) -> (queued: bool)
        requires
            old(self).wf(),
        ensures
            final(self).wf(),
            final(self).capacity() == old(self).capacity(),
            queued == (old(self)@.len() < old(self).capacity()),
            queued ==> final(self)@ == old(self)@.push(sample),
            !queued ==> final(self)@ == old(self)@,
    {
        if self.samples.len() < self.capacity {
            self.samples.push_back(sample);
            true
        } else {
            false
        }
    }

    /// Takes the oldest sample out, if there is one.
    pub fn pop(&mut self) -> (sample: Option<i16>)
        requires
            old(self).wf(),
        ensures
            final(self).wf(),
            final(self).capacity() == old(self).capacity(),
            old(self)@.len() == 0 ==> sample is None && final(self)@ == old(self)@,
            old(self)@.len() > 0 ==> sample == Some(old(self)@[0]) && final(self)@ == old(
                self,
            )@.skip(1),
    {
        let sample = self.samples.pop_front();
        proof {
            if old(self)@.len() > 0 {
                assert(self.samples@ =~= old(self)@.skip(1));
            }
        }
        sample
    }

    /// The device's callback: fills `frame` from the queue, oldest sample
    /// first, and with silence where the queue runs out. It neither waits nor
    /// fails.
    pub fn fill_frame(&mut self, frame: &mut [i16])
        requires
            old(self).wf(),
        ensures
            final(self).wf(),
            final(self).capacity() == old(self).capacity(),
            final(frame)@ == frame_of(old(self)@, old(frame)@.len()),
            final(self)@ == queue_after_frame(old(self)@, old(frame)@.len()),
    {
        let n = frame.len();
        let mut i: usize = 0;
        while i < n
            invariant
                i <= n,
                frame@.len() == n,
                n == old(frame)@.len(),
                self.wf(),
                self.capacity() == old(self).capacity(),
                self@ == queue_after_frame(old(self)@, i as nat),
                forall|k: int| 0 <= k < i ==> frame@[k] == frame_of(old(self)@, n as nat)[k],
            decreases n - i,
        {
            let sample = match self.pop() {
                Some(s) => s,
                None => EQUILIBRIUM,
            };
            frame[i] = sample;
            proof {
                let q = old(self)@;
                if i < q.len() {
                    assert(queue_after_frame(q, i as nat).skip(1) =~= queue_after_frame(
                        q,
                        (i + 1) as nat,
                    ));
                }
            }
            i += 1;
        }
        assert(frame@ =~= frame_of(old(self)@, n as nat));
    }
}

/// Over `cycles` callbacks with nothing put into the queue meanwhile, the
/// device hears exactly `cycles * frame_len` samples: what the queue held,
/// oldest first, and silence from where the queue ran out.
pub proof fn law_starved_output(queue: Seq<i16>, cycles: nat, frame_len: nat)
    ensures
        starved_output(queue, cycles, frame_len).len() == cycles * frame_len,
        forall|i: int|
            0 <= i < cycles * frame_len ==> #[trigger] starved_output(queue, cycles, frame_len)[i]
                == if i < queue.len() {
                queue[i]
            } else {
                EQUILIBRIUM
            },
    decreases cycles,
{
    if cycles > 0 {
        let rest = queue_after_frame(queue, frame_len);
        law_starved_output(rest, (cycles - 1) as nat, frame_len);
        assert(cycles * frame_len == frame_len + (cycles - 1) * frame_len) by (nonlinear_arith)
            requires
                cycles > 0,
        ;
        let head = frame_of(queue, frame_len);
        let tail = starved_output(rest, (cycles - 1) as nat, frame_len);
        assert forall|i: int| 0 <= i < cycles * frame_len implies #[trigger] starved_output(
            queue,
            cycles,
            frame_len,
        )[i] == if i < queue.len() {
            queue[i]
        } else {
            EQUILIBRIUM
        } by {
            if i >= frame_len {
                assert((head + tail)[i] == tail[i - frame_len]);
            } else {
                assert((head + tail)[i] == head[i]);
            }
        }
    } else {
        assert(cycles * frame_len == 0) by (nonlinear_arith)
            requires
                cycles == 0,
        ;
    }
}

/// Underrun: with nothing queued, `cycles` callbacks of `frame_len` samples
/// hear exactly `cycles * frame_len` samples, every one of them silence, and
/// the queue stays empty.
pub proof fn law_underrun_is_silence(cycles: nat, frame_len: nat)
    ensures
        starved_output(Seq::empty(), cycles, frame_len).len() == cycles * frame_len,
        forall|i: int|
            0 <= i < cycles * frame_len ==> #[trigger] starved_output(
                Seq::empty(),
                cycles,
                frame_len,
            )[i] == EQUILIBRIUM,
        queue_after_frame(Seq::empty(), frame_len) == Seq::<i16>::empty(),
{
    law_starved_output(Seq::empty(), cycles, frame_len);
}

} // verus!

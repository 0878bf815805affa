//! The computing parts of the capture pipeline: taking one channel out of
//! interleaved frames, and streaming sample-rate conversion.
//!
//! The resampler reads its input at a position that moves on by
//! `in_rate / out_rate` input samples for every output sample. The position is
//! kept as an exact fraction, so no rounding builds up however long the stream
//! runs. For every output it hands out the two input samples around the
//! position and the weight between them; the arithmetic on sample values is
//! left to the caller, who knows their type.

use std::collections::VecDeque;
use vstd::arithmetic::div_mod::{
    lemma_div_is_ordered, lemma_div_multiples_vanish, lemma_fundamental_div_mod,
    lemma_fundamental_div_mod_converse,
};
use vstd::arithmetic::mul::lemma_mul_is_commutative;
use vstd::prelude::*;

verus! {

/// The rate, in samples per second, of the audio that is written.
pub const OUT_SAMPLE_RATE: u32 = 16_000;

/// The number of channels of the audio that is written.
pub const OUT_CHANNELS: u16 = 1;

/// The number of bits in each sample of the audio that is written.
pub const OUT_BITS_PER_SAMPLE: u16 = 16;

/// The first sample of every whole frame of `channels` interleaved samples,
/// or `None` where a frame has no sample at all. Samples after the last whole
/// frame are left out.
pub fn first_channel<T: Copy>(data: &[T], channels: usize) -> (mono: Option<Vec<T>>)
    ensures
        channels == 0 <==> mono is None,
        mono matches Some(v) ==> {
            &&& v@.len() == data@.len() as int / channels as int
            &&& forall|i: int| 0 <= i < v@.len() ==> v@[i] == data@[i * channels]
        },
{
    if channels == 0 {
        return None;
    }
    let frames: usize = data.len() / channels;
    proof {
        lemma_fundamental_div_mod(data@.len() as int, channels as int);
        lemma_mul_is_commutative(channels as int, frames as int);
    }
    let mut v: Vec<T> = Vec::new();
    let mut i: usize = 0;
    while i < frames
        invariant
            channels > 0,
            i <= frames,
            frames * channels <= data@.len() <= usize::MAX,
            v@.len() == i,
            forall|j: int| 0 <= j < i ==> v@[j] == data@[j * channels],
        decreases frames - i,
    {
        assert(0 <= i * channels && i * channels + channels <= frames * channels)
            by (nonlinear_arith)
            requires
                0 <= i,
                i + 1 <= frames,
                channels > 0,
        ;
        v.push(data[i * channels]);
        i = i + 1;
    }
    Some(v)
}

/// One output sample, before the arithmetic on sample values: the input
/// samples on both sides of the read position, and how far the position lies
/// from the first towards the second, as `frac_num / frac_den`. The output
/// value is `s0 + (s1 - s0) * frac_num / frac_den`.
#[derive(Clone, Copy, Debug, PartialEq, Eq)]
pub struct Tap<T> {
    pub s0: T,
    pub s1: T,
    pub frac_num: u32,
    pub frac_den: u32,
}

/// A streaming sample-rate converter by linear interpolation.
pub struct LinearResampler<T> {
    in_rate: u32,
    out_rate: u32,
    /// Whole samples between the front of `buf` and the read position.
    pos_int: u64,
    /// The part of the read position past `pos_int`, in units of `1 / out_rate`.
    pos_num: u32,
    /// The input that may still be read.
    buf: VecDeque<T>,
    /// All input, from the first sample on.
    pushed: Ghost<Seq<T>>,
    /// How many samples have left `buf`.
    dropped: Ghost<nat>,
    /// How many output samples were handed out.
    produced: Ghost<nat>,
}

/// What a resampler is, apart from how it stores it: the two rates, all the
/// input it was given, and the number of output samples it has handed out.
pub struct ResamplerView<T> {
    pub in_rate: u32,
    pub out_rate: u32,
    pub input: Seq<T>,
    pub produced: nat,
}

/// The index of the input sample at or before the read position of output
/// sample `k`.
pub open spec fn read_index(in_rate: u32, out_rate: u32, k: nat) -> int {
    (k * in_rate) / (out_rate as int)
}

/// How far the read position of output sample `k` lies past
/// [`read_index`], in units of `1 / out_rate`.
pub open spec fn read_frac(in_rate: u32, out_rate: u32, k: nat) -> int {
    (k * in_rate) % (out_rate as int)
}

impl<T> ResamplerView<T> {
    /// Whether the input reaches far enough for the next output sample: the
    /// sample after the read position has been given.
    pub open spec fn ready(self) -> bool {
        read_index(self.in_rate, self.out_rate, self.produced) + 1 < self.input.len()
    }

    /// The next output sample, where the input reaches far enough.
    pub open spec fn tap(self) -> Tap<T> {
        let i = read_index(self.in_rate, self.out_rate, self.produced);
        Tap {
            s0: self.input[i],
            s1: self.input[i + 1],
            frac_num: read_frac(self.in_rate, self.out_rate, self.produced) as u32,
            frac_den: self.out_rate,
        }
    }

    /// The most output samples that `input.len()` input samples can give:
    /// the whole part of `input.len() * out_rate / in_rate`, and one.
    pub open spec fn output_bound(self) -> int {
        (self.input.len() * self.out_rate) / (self.in_rate as int) + 1
    }

    /// Output sample `k`, where the input reaches far enough for it.
    pub open spec fn tap_at(self, k: nat) -> Tap<T> {
        (ResamplerView { produced: k, ..self }).tap()
    }

    /// The input that a resampler still holds after an output sample: what
    /// lies at or after the read position.
    pub open spec fn unread(self) -> Seq<T> {
        let i = read_index(self.in_rate, self.out_rate, self.produced);
        if i <= self.input.len() {
            self.input.skip(i)
        } else {
            Seq::empty()
        }
    }
}

/// `n` input samples give no more output samples than the whole part of
/// `n * out_rate / in_rate`, and one: where output sample `k - 1` lies
/// within reach of `n` input samples, `k` is within that bound.
pub proof fn law_outputs_are_bounded(in_rate: u32, out_rate: u32, k: nat, n: nat)
    requires
        in_rate > 0,
        out_rate > 0,
        k > 0,
        read_index(in_rate, out_rate, (k - 1) as nat) + 1 < n,
    ensures
        k <= (n * out_rate) / (in_rate as int) + 1,
{
    let x = (k - 1) * in_rate;
    let q = x / (out_rate as int);
    lemma_fundamental_div_mod(x, out_rate as int);
    // x = out * q + r, with r < out and q + 1 < n, so x < out * n
    assert(out_rate * q + out_rate <= out_rate * n) by (nonlinear_arith)
        requires
            q + 1 <= n,
            out_rate > 0,
    ;
    assert(x < n * out_rate) by (nonlinear_arith)
        requires
            x == out_rate * q + x % (out_rate as int),
            x % (out_rate as int) < out_rate,
            out_rate * q + out_rate <= out_rate * n,
    ;
    // so k - 1 = x / in <= (n * out) / in
    lemma_div_is_ordered(x, n * out_rate, in_rate as int);
    lemma_div_multiples_vanish((k - 1) as int, in_rate as int);
    lemma_mul_is_commutative((k - 1) as int, in_rate as int);
}

impl<T> LinearResampler<T> {
    /// What the stored position and buffer have to do with the input and the
    /// count of output samples.
    pub closed spec fn wf(&self) -> bool {
        &&& self.in_rate > 0
        &&& self.out_rate > 0
        &&& self.pos_num < self.out_rate
        &&& self.pos_int <= self.in_rate
        &&& self.dropped@ + self.buf@.len() == self.pushed@.len()
        &&& self.buf@ == self.pushed@.skip(self.dropped@ as int)
        &&& (self.dropped@ + self.pos_int) * self.out_rate + self.pos_num == self.produced@
            * self.in_rate
        &&& self.produced@ > 0 ==> read_index(
            self.in_rate,
            self.out_rate,
            (self.produced@ - 1) as nat,
        ) + 1 < self.pushed@.len()
    }

    pub closed spec fn view(&self) -> ResamplerView<T> {
        ResamplerView {
            in_rate: self.in_rate,
            out_rate: self.out_rate,
            input: self.pushed@,
            produced: self.produced@,
        }
    }

    /// The input that is held in memory.
    pub closed spec fn buffered(&self) -> Seq<T> {
        self.buf@
    }

    /// In every state that the operations of a resampler lead to, the count
    /// of output samples is within the bound that the input allows.
    pub proof fn law_output_bound(&self)
        requires
            self.wf(),
        ensures
            self@.produced <= self@.output_bound(),
    {
        if self.produced@ > 0 {
            law_outputs_are_bounded(
                self.in_rate,
                self.out_rate,
                self.produced@,
                self.pushed@.len(),
            );
        } else {
            assert(0 <= (self.pushed@.len() * self.out_rate) / (self.in_rate as int))
                by (nonlinear_arith)
                requires
                    self.in_rate > 0,
                    self.pushed@.len() * self.out_rate >= 0,
            ;
        }
    }

    proof fn lemma_position(&self)
        requires
            self.wf(),
        ensures
            read_index(self.in_rate, self.out_rate, self.produced@) == self.dropped@
                + self.pos_int,
            read_frac(self.in_rate, self.out_rate, self.produced@) == self.pos_num,
    {
        lemma_fundamental_div_mod_converse(
            (self.produced@ * self.in_rate) as int,
            self.out_rate as int,
            (self.dropped@ + self.pos_int) as int,
            self.pos_num as int,
        );
    }
}

impl<T: Copy> LinearResampler<T> {
    /// A resampler from `in_rate` to `out_rate` samples per second, with no
    /// input yet.
    pub fn new(in_rate: u32, out_rate: u32) -> (r: Self)
        requires
            in_rate > 0,
            out_rate > 0,
        ensures
            r.wf(),
            r@ == (ResamplerView { in_rate, out_rate, input: Seq::<T>::empty(), produced: 0 }),
            r.buffered() == Seq::<T>::empty(),
    {
        let r = LinearResampler {
            in_rate,
            out_rate,
            pos_int: 0,
            pos_num: 0,
            buf: VecDeque::new(),
            pushed: Ghost(Seq::empty()),
            dropped: Ghost(0),
            produced: Ghost(0),
        };
        assert(r.buf@ =~= r.pushed@.skip(0));
        assert((0 + 0) * out_rate + 0 == 0 * in_rate) by (nonlinear_arith);
        r
    }

    /// Adds `samples` to the end of the input.
    pub fn push(&mut self, samples: &[T])
        requires
            old(self).wf(),
        ensures
            final(self).wf(),
            final(self)@ == (ResamplerView { input: old(self)@.input + samples@, ..old(self)@ }),
            final(self).buffered() == old(self).buffered() + samples@,
    {
        let mut i: usize = 0;
        while i < samples.len()
            invariant
                i <= samples.len(),
                self.wf(),
                self@ == (ResamplerView {
                    input: old(self)@.input + samples@.take(i as int),
                    ..old(self)@
                }),
                self.buffered() == old(self).buffered() + samples@.take(i as int),
            decreases samples.len() - i,
        {
            self.buf.push_back(samples[i]);
            proof {
                self.pushed@ = self.pushed@.push(samples@[i as int]);
                assert(self.buf@ =~= self.pushed@.skip(self.dropped@ as int));
                assert(old(self)@.input + samples@.take(i + 1) =~= (old(self)@.input
                    + samples@.take(i as int)).push(samples@[i as int]));
            }
            i = i + 1;
        }
        assert(samples@.take(samples@.len() as int) =~= samples@);
    }

    /// The next output sample, or `None` while the input does not reach far
    /// enough for it. `None` changes nothing: more input may follow, and the
    /// next call takes up where this one stood. After an output sample the
    /// input before the new read position is let go.
    pub fn next(&mut self) -> (out: Option<Tap<T>>)
        requires
            old(self).wf(),
        ensures
            final(self).wf(),
            old(self)@.ready() ==> {
                &&& out == Some(old(self)@.tap())
                &&& final(self)@ == (ResamplerView {
                    produced: old(self)@.produced + 1,
                    ..old(self)@
                })
                &&& final(self).buffered() == final(self)@.unread()
            },
            !old(self)@.ready() ==> {
                &&& out is None
                &&& final(self)@ == old(self)@
                &&& final(self).buffered() == old(self).buffered()
            },
            final(self)@.produced <= final(self)@.output_bound(),
    {
        proof {
            self.lemma_position();
            self.law_output_bound();
        }
        let len: u64 = self.buf.len() as u64;
        if self.pos_int + 1 >= len {
            return None;
        }
        let i0: usize = self.pos_int as usize;
        let s0: T = self.buf[i0];
        let s1: T = self.buf[i0 + 1];
        let out = Tap { s0, s1, frac_num: self.pos_num, frac_den: self.out_rate };

        let sum: u64 = self.pos_num as u64 + self.in_rate as u64;
        let carry: u64 = sum / (self.out_rate as u64);
        let rest: u64 = sum % (self.out_rate as u64);
        proof {
            lemma_fundamental_div_mod(sum as int, self.out_rate as int);
            assert(carry <= self.in_rate) by (nonlinear_arith)
                requires
                    sum == self.out_rate * carry + rest,
                    sum < self.out_rate + self.in_rate,
                    self.out_rate >= 1,
                    carry >= 0,
                    rest >= 0,
            ;
            assert((self.dropped@ + self.pos_int + carry) * self.out_rate + rest
                == (self.produced@ + 1) * self.in_rate) by (nonlinear_arith)
                requires
                    (self.dropped@ + self.pos_int) * self.out_rate + self.pos_num
                        == self.produced@ * self.in_rate,
                    self.pos_num + self.in_rate == self.out_rate * carry + rest,
            ;
        }
        let ghost reached = self.dropped@ + self.pos_int + carry;
        let mut ahead: u64 = self.pos_int + carry;
        self.pos_num = rest as u32;
        proof {
            self.produced@ = self.produced@ + 1;
        }
        while ahead > 0 && self.buf.len() > 0
            invariant
                self.in_rate == old(self).in_rate,
                self.out_rate == old(self).out_rate,
                self.pushed@ == old(self).pushed@,
                self.produced@ == old(self).produced@ + 1,
                self.pos_num == rest,
                rest < self.out_rate,
                self.dropped@ + ahead == reached,
                self.dropped@ + self.buf@.len() == self.pushed@.len(),
                self.buf@ == self.pushed@.skip(self.dropped@ as int),
                old(self).dropped@ <= self.dropped@,
                ahead <= old(self).pos_int + carry,
            decreases ahead,
        {
            let _ = self.buf.pop_front();
            proof {
                self.dropped@ = self.dropped@ + 1;
            }
            ahead = ahead - 1;
        }
        self.pos_int = ahead;
        proof {
            self.lemma_position_after(reached as int);
            self.law_output_bound();
        }
        Some(out)
    }
}

impl<T: Copy> LinearResampler<T> {
    /// Every output sample that the input reaches and that was not handed
    /// out yet, in order. The input is left as it is; the next output sample
    /// has to wait for more of it.
    pub fn drain(&mut self) -> (out: Vec<Tap<T>>)
        requires
            old(self).wf(),
        ensures
            final(self).wf(),
            final(self)@ == (ResamplerView {
                produced: old(self)@.produced + out@.len(),
                ..old(self)@
            }),
            !final(self)@.ready(),
            forall|i: int|
                0 <= i < out@.len() ==> out@[i] == old(self)@.tap_at(
                    (old(self)@.produced + i) as nat,
                ),
            final(self)@.produced <= final(self)@.output_bound(),
    {
        let mut out: Vec<Tap<T>> = Vec::new();
        proof {
            self.law_output_bound();
        }
        loop
            invariant
                self.wf(),
                self@ == (ResamplerView {
                    produced: old(self)@.produced + out@.len(),
                    ..old(self)@
                }),
                forall|i: int|
                    0 <= i < out@.len() ==> out@[i] == old(self)@.tap_at(
                        (old(self)@.produced + i) as nat,
                    ),
                self@.produced <= self@.output_bound(),
            ensures
                !self@.ready(),
            decreases self@.output_bound() - self@.produced,
        {
            match self.next() {
                Some(tap) => {
                    out.push(tap);
                },
                None => {
                    break;
                },
            }
        }
        out
    }
}

impl<T> LinearResampler<T> {
    proof fn lemma_position_after(&self, reached: int)
        requires
            self.out_rate > 0,
            self.pos_num < self.out_rate,
            self.dropped@ + self.pos_int == reached,
            reached * self.out_rate + self.pos_num == self.produced@ * self.in_rate,
            self.dropped@ + self.buf@.len() == self.pushed@.len(),
            self.buf@ == self.pushed@.skip(self.dropped@ as int),
            self.pos_int > 0 ==> self.buf@.len() == 0,
        ensures
            read_index(self.in_rate, self.out_rate, self.produced@) == reached,
            self.buffered() == self@.unread(),
    {
        lemma_fundamental_div_mod_converse(
            (self.produced@ * self.in_rate) as int,
            self.out_rate as int,
            reached,
            self.pos_num as int,
        );
    }
}

/// Where `in_rate` is a whole multiple `r` of `out_rate`, output sample `k`
/// is read at input sample `k * r` exactly, with nothing of the next sample
/// mixed in: the position neither drifts nor rounds.
pub proof fn law_whole_ratio_is_exact(in_rate: u32, out_rate: u32, r: nat, k: nat)
    requires
        out_rate > 0,
        in_rate == r * out_rate,
    ensures
        read_index(in_rate, out_rate, k) == k * r,
        read_frac(in_rate, out_rate, k) == 0,
{
    assert(k * in_rate == (k * r) * out_rate + 0) by (nonlinear_arith)
        requires
            in_rate == r * out_rate,
    ;
    lemma_fundamental_div_mod_converse(
        (k * in_rate) as int,
        out_rate as int,
        (k * r) as int,
        0,
    );
}

/// On the input `f(n) = n` and a whole ratio `r`, the next output sample of a
/// resampler that has handed out `k` samples is `k * r` itself.
pub proof fn law_ramp_is_sampled_exactly(v: ResamplerView<int>, r: nat)
    requires
        v.out_rate > 0,
        v.in_rate == r * v.out_rate,
        forall|n: int| 0 <= n < v.input.len() ==> v.input[n] == n,
        v.ready(),
    ensures
        v.tap().s0 == v.produced * r,
        v.tap().frac_num == 0,
{
    law_whole_ratio_is_exact(v.in_rate, v.out_rate, r, v.produced);
    assert(v.produced * r >= 0) by (nonlinear_arith)
        requires
            v.produced >= 0,
            r >= 0,
    ;
}

} // verus!

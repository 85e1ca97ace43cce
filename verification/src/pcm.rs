//! 16-bit little-endian PCM: encoding samples, rate conversion to the
//! service's 16 kHz, splitting into 20 ms frames, and stereo downmix.

use vstd::prelude::*;

verus! {

/// The sample rate the service expects.
pub const TARGET_RATE: u32 = 16000;

/// Samples per frame: 20 ms at 16 kHz.
pub const FRAME_SAMPLES: usize = 320;

/// The low byte of a sample's little-endian encoding.
pub open spec fn low_byte(s: i16) -> u8 {
    ((s as u16) % 256) as u8
}

/// The high byte of a sample's little-endian encoding.
pub open spec fn high_byte(s: i16) -> u8 {
    ((s as u16) / 256) as u8
}

/// The sample encoded little-endian by `lo`, `hi`.
pub open spec fn sample_of(lo: u8, hi: u8) -> i16 {
    ((lo as int + 256 * hi as int) as u16) as i16
}

/// Little-endian encoding of a sequence of samples.
pub open spec fn le_encoding(samples: Seq<i16>) -> Seq<u8> {
    Seq::new(
        2 * samples.len(),
        |j: int| if j % 2 == 0 { low_byte(samples[j / 2]) } else { high_byte(samples[j / 2]) },
    )
}

/// The little-endian bytes of the samples of `data` (16-bit PCM) at
/// `positions`, in order; a position past the last sample contributes
/// nothing.
pub open spec fn picked(data: Seq<u8>, positions: Seq<usize>) -> Seq<u8>
    decreases positions.len(),
{
    if positions.len() == 0 {
        Seq::empty()
    } else {
        let k = positions.last() as int;
        picked(data, positions.drop_last()) + if k < data.len() / 2 {
            seq![data[2 * k], data[2 * k + 1]]
        } else {
            Seq::empty()
        }
    }
}

pub struct AudioFileReader;

impl AudioFileReader {
    /// Rate conversion of little-endian 16-bit PCM: output sample `i` is the
    /// input sample at `positions[i]`, the source position of output sample
    /// `i` at the conversion ratio; positions past the last sample are
    /// skipped.
    pub fn resample(data: &[u8], positions: &[usize]) -> (r: Vec<u8>)
        requires
            data@.len() % 2 == 0,
        ensures
            r@ == picked(data@, positions@),
    {
        let mut out: Vec<u8> = Vec::new();
        let len = data.len();
        let n = len / 2;
        let count = positions.len();
        for i in 0..count
            invariant
                count == positions@.len(),
                len == data@.len(),
                n == len / 2,
                data@.len() % 2 == 0,
                out@ == picked(data@, positions@.take(i as int)),
        {
            let k = positions[i];
            assert(positions@.take(i + 1).drop_last() == positions@.take(i as int));
            assert(positions@.take(i + 1).last() == k);
            if k < n {
                out.push(data[2 * k]);
                out.push(data[2 * k + 1]);
            }
        }
        assert(positions@.take(count as int) == positions@);
        out
    }

    /// PCM at the service's rate: `data` itself when it already is at 16 kHz,
    /// otherwise converted from `sample_rate` at the source `positions` of
    /// the output samples (see [`AudioFileReader::resample`]); the rate
    /// returned is always 16 kHz.
    pub fn to_target_rate(data: Vec<u8>, sample_rate: u32, positions: &[usize]) -> (r: (
        Vec<u8>,
        u32,
    ))
        requires
            sample_rate != TARGET_RATE ==> data@.len() % 2 == 0,
        ensures
            r.1 == TARGET_RATE,
            sample_rate == TARGET_RATE ==> r.0@ == data@,
            sample_rate != TARGET_RATE ==> r.0@ == picked(data@, positions@),
    {
        if sample_rate != TARGET_RATE {
            (Self::resample(&data, positions), TARGET_RATE)
        } else {
            (data, TARGET_RATE)
        }
    }
}

/// Appends the little-endian encoding of each sample.
pub fn push_samples_le(out: &mut Vec<u8>, samples: &[i16])
    ensures
        final(out)@ == old(out)@ + le_encoding(samples@),
{
    let ghost start = old(out)@;
    let n = samples.len();
    for i in 0..n
        invariant
            n == samples@.len(),
            out@ == start + le_encoding(samples@.take(i as int)),
    {
        let u: u16 = samples[i] as u16;
        out.push((u % 256) as u8);
        out.push((u / 256) as u8);
        assert(le_encoding(samples@.take(i + 1)) =~= le_encoding(samples@.take(i as int)).push(
            low_byte(samples@[i as int]),
        ).push(high_byte(samples@[i as int])));
    }
    assert(samples@.take(n as int) == samples@);
}

/// The full 320-sample frames of little-endian PCM, decoded; a trailing
/// partial frame is dropped.
pub open spec fn frames_of(data: Seq<u8>) -> Seq<Seq<i16>> {
    Seq::new(
        data.len() / 2 / FRAME_SAMPLES as nat,
        |f: int|
            Seq::new(
                FRAME_SAMPLES as nat,
                |j: int|
                    sample_of(
                        data[2 * (FRAME_SAMPLES * f + j)],
                        data[2 * (FRAME_SAMPLES * f + j) + 1],
                    ),
            ),
    )
}

/// Splits little-endian PCM into full 320-sample (20 ms) frames of samples.
pub fn pcm_frames(data: &[u8]) -> (r: Vec<Vec<i16>>)
    requires
        data@.len() % 2 == 0,
    ensures
        r@.len() == frames_of(data@).len(),
        forall|f: int| 0 <= f < r@.len() ==> (#[trigger] r@[f])@ == frames_of(data@)[f],
{
    let len = data.len();
    let count = len / 2 / FRAME_SAMPLES;
    let mut frames: Vec<Vec<i16>> = Vec::new();
    for f in 0..count
        invariant
            count == data@.len() / 2 / FRAME_SAMPLES as nat,
            data@.len() <= usize::MAX,
            frames@.len() == f,
            forall|g: int| 0 <= g < f ==> (#[trigger] frames@[g])@ == frames_of(data@)[g],
    {
        let mut frame: Vec<i16> = Vec::new();
        assert(FRAME_SAMPLES * (f + 1) <= data@.len() / 2) by (nonlinear_arith)
            requires
                f < count,
                count == data@.len() / 2 / FRAME_SAMPLES as nat,
        ;
        for j in 0..FRAME_SAMPLES
            invariant
                f < count,
                data@.len() <= usize::MAX,
                FRAME_SAMPLES * (f + 1) <= data@.len() / 2,
                frame@.len() == j,
                forall|t: int| 0 <= t < j ==> #[trigger] frame@[t] == frames_of(data@)[f as int][t],
        {
            assert(FRAME_SAMPLES * f + j < data@.len() / 2) by (nonlinear_arith)
                requires
                    FRAME_SAMPLES * (f + 1) <= data@.len() / 2,
                    j < FRAME_SAMPLES,
            ;
            let p = 2 * (FRAME_SAMPLES * f + j);
            let lo = data[p];
            let hi = data[p + 1];
            frame.push((lo as u16 + (hi as u16) * 256) as i16);
        }
        assert(frame@ =~= frames_of(data@)[f as int]);
        frames.push(frame);
    }
    frames
}

/// The average of two samples, rounded toward zero.
pub open spec fn average_of(a: i16, b: i16) -> i16 {
    let s = a as int + b as int;
    (if s >= 0 { s / 2 } else { -((-s) / 2) }) as i16
}

/// Interleaved stereo samples mixed down to mono by averaging each pair.
pub fn downmix_stereo(samples: &[i16]) -> (r: Vec<i16>)
    requires
        samples@.len() % 2 == 0,
    ensures
        r@ == Seq::new(
            samples@.len() / 2,
            |i: int| average_of(samples@[2 * i], samples@[2 * i + 1]),
        ),
{
    let len = samples.len();
    let n = len / 2;
    let mut out: Vec<i16> = Vec::new();
    for i in 0..n
        invariant
            n == samples@.len() / 2,
            samples@.len() % 2 == 0,
            samples@.len() <= usize::MAX,
            out@.len() == i,
            forall|t: int|
                0 <= t < i ==> #[trigger] out@[t] == average_of(samples@[2 * t], samples@[2 * t + 1]),
    {
        assert(2 * i + 1 < samples@.len());
        let s: i32 = samples[2 * i] as i32 + samples[2 * i + 1] as i32;
        let m: i32 = if s >= 0 {
            ((s as u32) / 2) as i32
        } else {
            -((((-s) as u32) / 2) as i32)
        };
        out.push(m as i16);
    }
    assert(out@ =~= Seq::new(
        samples@.len() / 2,
        |i: int| average_of(samples@[2 * i], samples@[2 * i + 1]),
    ));
    out
}

} // verus!

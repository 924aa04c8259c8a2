//! The computing part of the audio output: decoding the console's sound
//! buffers and moving samples between interleaved and per-channel layouts.
use vstd::prelude::*;

verus! {

/// Why an audio player could not be created.
#[derive(Clone, Copy, Debug, PartialEq, Eq, Structural)]
pub enum AudioPlayerError {
    /// The host has no default output device.
    NoDefaultOutputDevice,
    /// The output device supports no two-channel, 32-bit float configuration.
    DualChannelNotSupported,
}

impl AudioPlayerError {
    /// A one-line description of the fault.
    pub fn message(&self) -> (r: &'static str)
        ensures
            *self == AudioPlayerError::NoDefaultOutputDevice ==> r@ == "No default output device"@,
            *self == AudioPlayerError::DualChannelNotSupported ==> r@ == "Dual channel not supported"@,
    {
        match self {
            AudioPlayerError::NoDefaultOutputDevice => "No default output device",
            AudioPlayerError::DualChannelNotSupported => "Dual channel not supported",
        }
    }
}

/// Little-endian signed 16-bit sample `i` of `buf`.
pub open spec fn le_i16(buf: Seq<u8>, i: int) -> i16 {
    (((buf[2 * i + 1] as u16) << 8u16) | (buf[2 * i] as u16)) as i16
}

/// Decodes little-endian signed 16-bit samples; a trailing odd byte is
/// ignored.
pub fn decode_pcm16(buf: &[u8]) -> (r: Vec<i16>)
    ensures
        r@.len() == buf@.len() / 2,
        forall|i: int| 0 <= i < r@.len() ==> r@[i] == le_i16(buf@, i),
{
    let len = buf.len();
    let n = len / 2;
    let mut out: Vec<i16> = Vec::new();
    let mut i: usize = 0;
    while i < n
        invariant
            i <= n,
            len == buf@.len(),
            n == buf@.len() / 2,
            out@.len() == i,
            forall|j: int| 0 <= j < i ==> out@[j] == le_i16(buf@, j),
        decreases n - i,
    {
        out.push((((buf[2 * i + 1] as u16) << 8u16) | (buf[2 * i] as u16)) as i16);
        i += 1;
    }
    out
}

/// Splits the first `n_frames` frames of interleaved `samples` into one
/// sequence per channel: sample `f` of channel `c` is `samples[f * channels + c]`.
pub fn deinterleave<T: Copy>(samples: &[T], n_frames: usize, channels: usize) -> (r: Vec<Vec<T>>)
    requires
        n_frames * channels <= samples@.len(),
    ensures
        r@.len() == channels,
        forall|c: int| 0 <= c < channels ==> (#[trigger] r@[c])@.len() == n_frames,
        forall|c: int, f: int|
            0 <= c < channels && 0 <= f < n_frames ==> (#[trigger] r@[c]@[f]) == samples@[f * channels + c],
{
    let len = samples.len();
    let mut out: Vec<Vec<T>> = Vec::new();
    let mut c: usize = 0;
    while c < channels
        invariant
            c <= channels,
            len == samples@.len(),
            n_frames * channels <= samples@.len(),
            out@.len() == c,
            forall|k: int| 0 <= k < c ==> (#[trigger] out@[k])@.len() == n_frames,
            forall|k: int, f: int|
                0 <= k < c && 0 <= f < n_frames ==> (#[trigger] out@[k]@[f]) == samples@[f * channels + k],
        decreases channels - c,
    {
        let mut wave: Vec<T> = Vec::new();
        let mut f: usize = 0;
        while f < n_frames
            invariant
                f <= n_frames,
                c < channels,
                len == samples@.len(),
                n_frames * channels <= samples@.len(),
                wave@.len() == f,
                forall|g: int| 0 <= g < f ==> (#[trigger] wave@[g]) == samples@[g * channels + c],
            decreases n_frames - f,
        {
            assert(f * channels + c < n_frames * channels) by (nonlinear_arith)
                requires
                    f < n_frames,
                    c < channels,
            ;
            wave.push(samples[f * channels + c]);
            f += 1;
        }
        out.push(wave);
        c += 1;
    }
    out
}

proof fn lemma_frame_index(g: int, k: int, f: int, channels: int)
    requires
        0 <= g < f,
        0 <= k < channels,
    ensures
        g * channels + k < f * channels,
{
    assert(g * channels + k < f * channels) by (nonlinear_arith)
        requires
            0 <= g < f,
            0 <= k < channels,
    ;
}

/// Interleaves per-channel sequences of equal length into frames: sample
/// `f * channels + c` is sample `f` of channel `c`.
pub fn interleave<T: Copy>(waves: &Vec<Vec<T>>) -> (r: Vec<T>)
    requires
        waves@.len() > 0,
        forall|c: int| 0 <= c < waves@.len() ==> (#[trigger] waves@[c])@.len() == waves@[0]@.len(),
        waves@[0]@.len() * waves@.len() <= usize::MAX,
    ensures
        r@.len() == waves@[0]@.len() * waves@.len(),
        forall|f: int, c: int|
            0 <= f < waves@[0]@.len() && 0 <= c < waves@.len() ==> r@[f * waves@.len() + c]
                == #[trigger] waves@[c]@[f],
{
    let channels = waves.len();
    let n_frames = waves[0].len();
    let mut out: Vec<T> = Vec::new();
    let mut f: usize = 0;
    while f < n_frames
        invariant
            f <= n_frames,
            channels == waves@.len(),
            n_frames == waves@[0]@.len(),
            channels > 0,
            forall|c: int| 0 <= c < channels ==> (#[trigger] waves@[c])@.len() == n_frames,
            n_frames * channels <= usize::MAX,
            out@.len() == f * channels,
            forall|g: int, c: int|
                0 <= g < f && 0 <= c < channels ==> out@[g * channels + c] == #[trigger] waves@[c]@[g],
        decreases n_frames - f,
    {
        let ghost before = out@;
        assert((f + 1) * channels == f * channels + channels) by (nonlinear_arith);
        assert(f * channels + channels <= n_frames * channels) by (nonlinear_arith)
            requires
                f < n_frames,
        ;
        let mut c: usize = 0;
        while c < channels
            invariant
                c <= channels,
                f < n_frames,
                channels == waves@.len(),
                n_frames == waves@[0]@.len(),
                forall|k: int| 0 <= k < channels ==> (#[trigger] waves@[k])@.len() == n_frames,
                f * channels + channels <= usize::MAX,
                out@.len() == f * channels + c,
                before.len() == f * channels,
                forall|i: int| 0 <= i < before.len() ==> out@[i] == before[i],
                forall|k: int| 0 <= k < c ==> out@[f * channels + k] == #[trigger] waves@[k]@[f as int],
            decreases channels - c,
        {
            out.push(waves[c][f]);
            c += 1;
        }
        assert forall|g: int, k: int| 0 <= g < f + 1 && 0 <= k < channels implies out@[g * channels
            + k] == #[trigger] waves@[k]@[g] by {
            if g < f {
                lemma_frame_index(g, k, f as int, channels as int);
            }
        }
        f += 1;
    }
    out
}

} // verus!

//! The integer skeleton of the audio feature-extraction pipeline: every
//! decision, length and filter-shape computation of the waveform-to-log-mel
//! chain that does not itself produce floating-point samples.
//!
//! The floating-point sample arithmetic (linear interpolation, the windowed
//! Fourier sums, log compression and normalization) lives outside the
//! library and is driven by the functions here: which branch the resampler
//! takes, how many samples and frames come out, and the exact rational value
//! of every mel filter weight.

use vstd::prelude::*;

verus! {

/// Whisper expects 16kHz sample rate.
pub const WHISPER_SAMPLE_RATE: u32 = 16000;

/// Number of mel filterbanks for Whisper.
pub const N_MEL_BINS: usize = 80;

/// FFT window size.
pub const N_FFT: usize = 400;

/// Hop length between frames.
pub const HOP_LENGTH: usize = 160;

/// Chunk length in samples (30 seconds at 16kHz).
pub const CHUNK_LENGTH: usize = 480000;

/// Failure modes of the pipeline. Every error is returned to the caller;
/// nothing is retried and no partial result is ever produced.
#[derive(Clone, Copy, Debug, PartialEq, Eq, Structural)]
pub enum AudioError {
    /// A zero-length waveform was supplied.
    EmptyInput,
    /// A zero sample rate stood on either side of resampling.
    InvalidRate,
    /// The analysis buffer was too short to produce any frame.
    StftFailure,
}

impl AudioError {
    /// The message reported for each failure.
    pub fn message(&self) -> (r: String)
        ensures
            *self == AudioError::EmptyInput ==> r@ == "Empty audio input"@,
            *self == AudioError::InvalidRate ==> r@ == "Sample rate cannot be zero"@,
            *self == AudioError::StftFailure ==> r@ == "Failed to compute STFT"@,
    {
        match self {
            AudioError::EmptyInput => "Empty audio input".to_owned(),
            AudioError::InvalidRate => "Sample rate cannot be zero".to_owned(),
            AudioError::StftFailure => "Failed to compute STFT".to_owned(),
        }
    }
}

/// The course the resampler takes for one input.
#[derive(Clone, Copy, Debug, PartialEq, Eq, Structural)]
pub enum ResampleAction {
    /// An empty input yields an empty output, whatever the rates.
    ReturnEmpty,
    /// Equal rates return the input unchanged, preserving exact values.
    ReturnInput,
    /// A zero rate on either side is rejected.
    FailInvalidRate,
    /// Distinct positive rates call for linear interpolation.
    Interpolate,
}

/// The resampler's decision, with the checks in the order they are made:
/// empty input first, then equal rates, then zero rates.
pub open spec fn spec_resample_action(
    input_len: int,
    source_rate: int,
    target_rate: int,
) -> ResampleAction {
    if input_len == 0 {
        ResampleAction::ReturnEmpty
    } else if source_rate == target_rate {
        ResampleAction::ReturnInput
    } else if source_rate == 0 || target_rate == 0 {
        ResampleAction::FailInvalidRate
    } else {
        ResampleAction::Interpolate
    }
}

/// Decide what resampling `input_len` samples from `source_rate` to
/// `target_rate` does.
pub fn resample_action(input_len: usize, source_rate: u32, target_rate: u32) -> (r: ResampleAction)
    ensures
        r == spec_resample_action(input_len as int, source_rate as int, target_rate as int),
{
    if input_len == 0 {
        ResampleAction::ReturnEmpty
    } else if source_rate == target_rate {
        ResampleAction::ReturnInput
    } else if source_rate == 0 || target_rate == 0 {
        ResampleAction::FailInvalidRate
    } else {
        ResampleAction::Interpolate
    }
}

/// A non-empty input passes through unchanged exactly when the rates are
/// equal (identity law for the resampler's decision).
pub proof fn lemma_resample_identity(input_len: int, source_rate: int, target_rate: int)
    requires
        input_len > 0,
    ensures
        spec_resample_action(input_len, source_rate, target_rate) == ResampleAction::ReturnInput
            <==> source_rate == target_rate,
{
}

/// An empty input yields an empty output for any rates: the decision is
/// `ReturnEmpty` before any rate is looked at.
pub proof fn lemma_resample_empty(source_rate: int, target_rate: int)
    ensures
        spec_resample_action(0, source_rate, target_rate) == ResampleAction::ReturnEmpty,
{
}

/// Resampling fails with `InvalidRate` exactly when a rate is zero. The two
/// earlier checks win on the inputs they cover, so this holds for non-empty
/// inputs outside the equal-and-zero corner: an empty input, or equal zero
/// rates, return a result instead.
pub proof fn lemma_resample_invalid_rate_iff(input_len: int, source_rate: int, target_rate: int)
    requires
        input_len > 0,
        !(source_rate == target_rate && source_rate == 0),
    ensures
        spec_resample_action(input_len, source_rate, target_rate)
            == ResampleAction::FailInvalidRate <==> (source_rate == 0 || target_rate == 0),
{
}

/// Number of samples resampling produces: the input length scaled by
/// target/source and rounded up, i.e. ceil(len * target / source).
pub open spec fn spec_resample_output_len(len: int, source: int, target: int) -> int
    recommends
        source > 0,
{
    (len * target + source - 1) / source
}

/// Compute the resampled output length exactly. `None` when the result does
/// not fit the address space (only reachable for enormous upsampling).
pub fn resample_output_len(input_len: usize, source_rate: u32, target_rate: u32) -> (r: Option<
    usize,
>)
    requires
        source_rate > 0,
        target_rate > 0,
    ensures
        r matches Some(n) ==> n == spec_resample_output_len(
            input_len as int,
            source_rate as int,
            target_rate as int,
        ),
        r is Some <==> spec_resample_output_len(
            input_len as int,
            source_rate as int,
            target_rate as int,
        ) <= usize::MAX,
{
    let len = input_len as u128;
    let s = source_rate as u128;
    let t = target_rate as u128;
    proof {
        assert(len * t <= 0xffff_ffff_ffff_ffff_ffff_ffff as u128 * 0xffff_ffff as u128)
            by (nonlinear_arith)
            requires
                len <= 0xffff_ffff_ffff_ffff_ffff_ffff as u128,
                t <= 0xffff_ffff as u128,
        ;
    }
    let out = (len * t + (s - 1)) / s;
    if out <= usize::MAX as u128 {
        Some(out as usize)
    } else {
        None
    }
}

/// Downsampling never lengthens the signal and upsampling never shortens it:
/// ceil(len * target / source) sits at or below `len` when source > target,
/// at or above when source < target, and exactly at `len` when they agree.
pub proof fn lemma_resample_length_monotone(len: int, source: int, target: int)
    requires
        len >= 0,
        source > 0,
        target > 0,
    ensures
        source > target ==> spec_resample_output_len(len, source, target) <= len,
        source < target ==> spec_resample_output_len(len, source, target) >= len,
        source == target ==> spec_resample_output_len(len, source, target) == len,
{
    let q = spec_resample_output_len(len, source, target);
    if source >= target {
        assert((len * target + source - 1) / source <= len) by (nonlinear_arith)
            requires
                len >= 0,
                source > 0,
                target > 0,
                source >= target,
        ;
    }
    if source <= target {
        assert((len * target + source - 1) / source >= len) by (nonlinear_arith)
            requires
                len >= 0,
                source > 0,
                target > 0,
                source <= target,
        ;
    }
}

/// Frames a short-time analysis yields: floor((len - fft_size)/hop) + 1 when
/// the buffer holds at least one full window, none otherwise.
pub open spec fn spec_frame_count(len: int, fft_size: int, hop: int) -> int
    recommends
        fft_size > 0,
        hop > 0,
{
    if len < fft_size {
        0
    } else {
        (len - fft_size) / hop + 1
    }
}

/// Count the analysis frames of a buffer of `buffer_len` samples.
pub fn stft_frame_count(buffer_len: usize, fft_size: usize, hop_length: usize) -> (r: usize)
    requires
        fft_size > 0,
        hop_length > 0,
    ensures
        r == spec_frame_count(buffer_len as int, fft_size as int, hop_length as int),
{
    if buffer_len < fft_size {
        0
    } else {
        let span = buffer_len - fft_size;
        proof {
            assert(span as int / hop_length as int <= span as int) by (nonlinear_arith)
                requires
                    hop_length >= 1,
                    span >= 0,
            ;
        }
        span / hop_length + 1
    }
}

/// Every counted frame lies fully inside the buffer: the last frame starts
/// at (count - 1)·hop and still has a whole window before the end, so the
/// analysis never reads past the buffer.
pub proof fn lemma_frames_fit(len: int, fft_size: int, hop: int)
    requires
        fft_size > 0,
        hop > 0,
    ensures
        forall|f: int|
            0 <= f < spec_frame_count(len, fft_size, hop) ==> #[trigger] (f * hop) + fft_size
                <= len,
{
    if len >= fft_size {
        let q = (len - fft_size) / hop;
        assert(q * hop <= len - fft_size) by (nonlinear_arith)
            requires
                hop > 0,
                len - fft_size >= 0,
                q == (len - fft_size) / hop,
        ;
        assert forall|f: int| 0 <= f < q + 1 implies #[trigger] (f * hop) + fft_size <= len by {
            assert(f * hop <= q * hop) by (nonlinear_arith)
                requires
                    0 <= f <= q,
                    hop > 0,
            ;
        }
    }
}

/// Reject an empty waveform before the pipeline does any work.
pub fn mel_input_check(input_len: usize) -> (r: Result<(), AudioError>)
    ensures
        r is Err <==> input_len == 0,
        input_len == 0 ==> r == Err::<(), AudioError>(AudioError::EmptyInput),
{
    if input_len == 0 {
        Err(AudioError::EmptyInput)
    } else {
        Ok(())
    }
}

/// The pipeline's shape is fixed by its constants alone: the padded chunk
/// always yields the same frame count, so every successful run returns a
/// feature vector of the same length, whatever the input length and rate.
pub proof fn lemma_feature_shape_fixed()
    ensures
        spec_frame_count(CHUNK_LENGTH as int, N_FFT as int, HOP_LENGTH as int) == 2998,
        N_MEL_BINS * spec_frame_count(CHUNK_LENGTH as int, N_FFT as int, HOP_LENGTH as int)
            == 239840,
{
}

/// Number of values in a successful mel feature vector: one value per band
/// and frame, with the frame count set by the fixed chunk length.
pub fn mel_feature_len() -> (r: usize)
    ensures
        r == N_MEL_BINS * spec_frame_count(CHUNK_LENGTH as int, N_FFT as int, HOP_LENGTH as int),
        r == 239840,
{
    proof {
        lemma_feature_shape_fixed();
    }
    let frames = stft_frame_count(CHUNK_LENGTH, N_FFT, HOP_LENGTH);
    N_MEL_BINS * frames
}

/// Triangular filter weight of the band with bin boundaries (left, center,
/// right) at bin `j`, as an exact rational (numerator, denominator): a
/// rising edge over [left, center), a falling edge over [center, right),
/// zero outside. A degenerate edge contributes nothing, because its
/// half-open interval is empty.
pub open spec fn spec_tri_weight(left: int, center: int, right: int, j: int) -> (int, int) {
    if left <= j < center {
        (j - left, center - left)
    } else if center <= j < right {
        (right - j, right - center)
    } else {
        (0, 1)
    }
}

/// Build the triangular mel filter rows for integer bin boundaries
/// `bin_points` over `n_freqs` frequency bins: row `i` spans
/// `bin_points[i] .. bin_points[i + 2]`, and each entry is the exact filter
/// weight as a (numerator, denominator) pair. The floating-point filterbank
/// matrix is this one divided entry-wise.
pub fn triangle_filterbank(bin_points: &Vec<usize>, n_freqs: usize) -> (fb: Vec<
    Vec<(usize, usize)>,
>)
    requires
        bin_points.len() >= 2,
    ensures
        fb.len() == bin_points.len() - 2,
        forall|i: int| 0 <= i < fb.len() ==> #[trigger] fb[i].len() == n_freqs,
        forall|i: int, j: int|
            0 <= i < fb.len() && 0 <= j < n_freqs ==> ((#[trigger] fb[i][j]).0
                == spec_tri_weight(
                bin_points[i] as int,
                bin_points[i + 1] as int,
                bin_points[i + 2] as int,
                j,
            ).0 && fb[i][j].1 == spec_tri_weight(
                bin_points[i] as int,
                bin_points[i + 1] as int,
                bin_points[i + 2] as int,
                j,
            ).1),
{
    let n_mels = bin_points.len() - 2;
    let mut fb: Vec<Vec<(usize, usize)>> = Vec::new();
    let mut i: usize = 0;
    while i < n_mels
        invariant
            bin_points.len() >= 2,
            n_mels == bin_points.len() - 2,
            i <= n_mels,
            fb.len() == i,
            forall|a: int| 0 <= a < i ==> #[trigger] fb[a].len() == n_freqs,
            forall|a: int, b: int|
                0 <= a < i && 0 <= b < n_freqs ==> ((#[trigger] fb[a][b]).0 == spec_tri_weight(
                    bin_points[a] as int,
                    bin_points[a + 1] as int,
                    bin_points[a + 2] as int,
                    b,
                ).0 && fb[a][b].1 == spec_tri_weight(
                    bin_points[a] as int,
                    bin_points[a + 1] as int,
                    bin_points[a + 2] as int,
                    b,
                ).1),
        decreases n_mels - i,
    {
        let left = bin_points[i];
        let center = bin_points[i + 1];
        let right = bin_points[i + 2];
        let mut row: Vec<(usize, usize)> = Vec::new();
        let mut j: usize = 0;
        while j < n_freqs
            invariant
                j <= n_freqs,
                row.len() == j,
                i < bin_points.len() - 2,
                left == bin_points[i as int],
                center == bin_points[i as int + 1],
                right == bin_points[i as int + 2],
                forall|b: int|
                    0 <= b < j ==> ((#[trigger] row[b]).0 == spec_tri_weight(
                        left as int,
                        center as int,
                        right as int,
                        b,
                    ).0 && row[b].1 == spec_tri_weight(
                        left as int,
                        center as int,
                        right as int,
                        b,
                    ).1),
            decreases n_freqs - j,
        {
            let w: (usize, usize) = if left <= j && j < center {
                (j - left, center - left)
            } else if center <= j && j < right {
                (right - j, right - center)
            } else {
                (0, 1)
            };
            row.push(w);
            j += 1;
        }
        fb.push(row);
        i += 1;
    }
    fb
}

/// Every triangular filter weight is a non-negative rational with a positive
/// denominator, and a band's support lies inside its [left, right) bin
/// window: when that window is narrower than the spectrum, at least one
/// bin's weight is exactly zero, so the row has fewer nonzero entries than
/// bins.
pub proof fn lemma_tri_weight_support(left: int, center: int, right: int, n_freqs: int)
    requires
        0 <= left <= center <= right,
        right - left < n_freqs,
    ensures
        forall|j: int| (#[trigger] spec_tri_weight(left, center, right, j)).0 >= 0,
        forall|j: int| (#[trigger] spec_tri_weight(left, center, right, j)).1 >= 1,
        forall|j: int|
            j < left || j >= right ==> #[trigger] spec_tri_weight(left, center, right, j) == (
            0int,
            1int,
            ),
        exists|j: int|
            0 <= j < n_freqs && #[trigger] spec_tri_weight(left, center, right, j) == (0int, 1int),
{
    if left > 0 {
        assert(spec_tri_weight(left, center, right, 0) == (0int, 1int));
        assert(0 <= 0 < n_freqs);
    } else {
        assert(spec_tri_weight(left, center, right, right) == (0int, 1int));
        assert(0 <= right < n_freqs);
    }
}

} // verus!

//! Tests for the integer skeleton of the audio pipeline: resampler
//! decisions and lengths, frame counts, the feature-vector shape and the
//! triangular filter weights.

use jarvis::audio::mel_feature_len;
use jarvis::audio::mel_input_check;
use jarvis::audio::resample_action;
use jarvis::audio::resample_output_len;
use jarvis::audio::stft_frame_count;
use jarvis::audio::triangle_filterbank;
use jarvis::audio::AudioError;
use jarvis::audio::ResampleAction;
use jarvis::audio::CHUNK_LENGTH;
use jarvis::audio::HOP_LENGTH;
use jarvis::audio::N_FFT;
use jarvis::audio::N_MEL_BINS;

#[test]
fn resample_identity_decision() {
    // Equal rates on a non-empty input: the input passes through unchanged.
    assert_eq!(resample_action(5, 16000, 16000), ResampleAction::ReturnInput);
    assert_eq!(resample_action(1, 8000, 8000), ResampleAction::ReturnInput);
}

#[test]
fn resample_empty_decision() {
    // An empty input yields an empty output for any rates, zero included.
    assert_eq!(resample_action(0, 48000, 16000), ResampleAction::ReturnEmpty);
    assert_eq!(resample_action(0, 0, 16000), ResampleAction::ReturnEmpty);
    assert_eq!(resample_action(0, 0, 0), ResampleAction::ReturnEmpty);
}

#[test]
fn resample_invalid_rate_decision() {
    assert_eq!(resample_action(3, 0, 16000), ResampleAction::FailInvalidRate);
    assert_eq!(resample_action(3, 16000, 0), ResampleAction::FailInvalidRate);
    assert_eq!(resample_action(3, 48000, 16000), ResampleAction::Interpolate);
    // The equal-rates check comes first, so equal zero rates pass through.
    assert_eq!(resample_action(3, 0, 0), ResampleAction::ReturnInput);
}

#[test]
fn resample_lengths() {
    // Downsampling 3:1 turns 100 samples into 34 — strictly fewer.
    assert_eq!(resample_output_len(100, 48000, 16000), Some(34));
    // Upsampling 1:3 turns 100 samples into 300 — no fewer.
    assert_eq!(resample_output_len(100, 16000, 48000), Some(300));
    // Equal rates keep the length.
    assert_eq!(resample_output_len(100, 16000, 16000), Some(100));
    assert_eq!(resample_output_len(0, 48000, 16000), Some(0));
}

#[test]
fn frame_counts() {
    // One frame exactly fits; the next needs a full hop.
    assert_eq!(stft_frame_count(400, 400, 160), 1);
    assert_eq!(stft_frame_count(559, 400, 160), 1);
    assert_eq!(stft_frame_count(560, 400, 160), 2);
    // A buffer shorter than the window yields no frame.
    assert_eq!(stft_frame_count(399, 400, 160), 0);
    assert_eq!(stft_frame_count(0, 400, 160), 0);
    // The padded chunk always yields the same count.
    assert_eq!(stft_frame_count(CHUNK_LENGTH, N_FFT, HOP_LENGTH), 2998);
}

#[test]
fn feature_shape_is_fixed() {
    assert_eq!(mel_feature_len(), 239840);
    assert_eq!(mel_feature_len(), N_MEL_BINS * 2998);
}

#[test]
fn empty_input_is_rejected() {
    assert_eq!(mel_input_check(0), Err(AudioError::EmptyInput));
    assert_eq!(mel_input_check(1), Ok(()));
    assert_eq!(mel_input_check(CHUNK_LENGTH), Ok(()));
}

#[test]
fn error_messages() {
    assert_eq!(AudioError::EmptyInput.message(), "Empty audio input");
    assert_eq!(AudioError::InvalidRate.message(), "Sample rate cannot be zero");
    assert_eq!(AudioError::StftFailure.message(), "Failed to compute STFT");
}

#[test]
fn triangle_weights_concrete() {
    let bin_points: Vec<usize> = vec![0, 2, 4, 6];
    let fb = triangle_filterbank(&bin_points, 5);
    assert_eq!(fb.len(), 2);
    // Band 0 spans bins [0, 4): rising over [0, 2), falling over [2, 4).
    assert_eq!(fb[0], vec![(0, 2), (1, 2), (2, 2), (1, 2), (0, 1)]);
    // Band 1 spans bins [2, 6): zero left of 2, cut off at the bin count.
    assert_eq!(fb[1], vec![(0, 1), (0, 1), (0, 2), (1, 2), (2, 2)]);
    for row in &fb {
        // Non-negative weights with positive denominators, and at least one
        // zero entry: the support is narrower than the spectrum.
        assert!(row.iter().all(|&(_, den)| den >= 1));
        assert!(row.iter().any(|&(num, _)| num == 0));
    }
}

#[test]
fn triangle_weights_degenerate_band() {
    // A band whose edges coincide contributes nothing.
    let bin_points: Vec<usize> = vec![1, 1, 1, 3];
    let fb = triangle_filterbank(&bin_points, 4);
    assert_eq!(fb.len(), 2);
    assert_eq!(fb[0], vec![(0, 1), (0, 1), (0, 1), (0, 1)]);
    assert_eq!(fb[1], vec![(0, 1), (2, 2), (1, 2), (0, 1)]);
}

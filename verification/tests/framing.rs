use spectral::domain::DomainError;
use spectral::framing::{frame_offsets, frames, stft_frames};

#[test]
fn offsets_for_overlapping_windows() {
    // 2048 samples, window 1024, stride 512: offset 1024 still fits,
    // since 1024 + 1024 <= 2048.
    assert_eq!(frame_offsets(2048, 1024, 512), vec![0, 512, 1024]);
}

#[test]
fn offsets_empty_when_buffer_shorter_than_window() {
    assert_eq!(frame_offsets(1000, 1024, 512), Vec::<usize>::new());
}

#[test]
fn offsets_single_frame_on_exact_fit() {
    assert_eq!(frame_offsets(1024, 1024, 512), vec![0]);
}

#[test]
fn offsets_drop_final_partial_window() {
    // 0 and 3 fit in 9 samples with window 4; 6 + 4 > 9 is dropped.
    assert_eq!(frame_offsets(9, 4, 3), vec![0, 3]);
}

#[test]
fn frames_copy_the_samples() {
    let samples: Vec<i32> = (0..10).collect();
    let fr = frames(&samples, 4, 3);
    assert_eq!(fr, vec![vec![0, 1, 2, 3], vec![3, 4, 5, 6], vec![6, 7, 8, 9]]);
}

#[test]
fn stft_frames_rejects_small_window() {
    let samples = vec![0i32; 8];
    assert_eq!(stft_frames(&samples, 1, 1), Err(DomainError::WindowTooSmall));
    assert_eq!(stft_frames(&samples, 0, 1), Err(DomainError::WindowTooSmall));
}

#[test]
fn stft_frames_rejects_zero_stride() {
    let samples = vec![0i32; 8];
    assert_eq!(stft_frames(&samples, 4, 0), Err(DomainError::StrideZero));
}

#[test]
fn stft_frames_rejects_window_longer_than_buffer() {
    let samples = vec![0i32; 8];
    assert_eq!(
        stft_frames(&samples, 16, 4),
        Err(DomainError::WindowExceedsBuffer)
    );
}

#[test]
fn stft_frames_shape_matches_framing_policy() {
    let samples = vec![7i32; 2048];
    let fr = stft_frames(&samples, 1024, 512).unwrap();
    assert_eq!(fr.len(), 3);
    for row in &fr {
        assert_eq!(row.len(), 1024);
    }
}

use spectral::spectrum::half_spectrum;

#[test]
fn half_spectrum_keeps_the_lower_bins() {
    let bins = vec![4.0f32, 3.0, 2.0, 1.0, 2.0, 3.0];
    assert_eq!(half_spectrum(&bins), vec![4.0, 3.0, 2.0]);
}

#[test]
fn half_spectrum_rounds_odd_lengths_down() {
    let bins = vec![9i32, 8, 7, 8, 9];
    assert_eq!(half_spectrum(&bins), vec![9, 8]);
    assert_eq!(half_spectrum(&Vec::<i32>::new()), Vec::<i32>::new());
}

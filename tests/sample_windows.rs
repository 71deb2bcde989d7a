use wavefield::SampleWindows;

#[test]
fn windows_are_consecutive_and_partial_waits() {
    let mut acc = SampleWindows::new(4);
    assert_eq!(acc.window_size(), 4);
    assert_eq!(acc.window_count(), 0);
    acc.extend(&[1, 2, 3]);
    assert_eq!(acc.window_count(), 0);
    acc.extend(&[4, 5, 6, 7, 8, 9, 10]);
    assert_eq!(acc.len(), 10);
    assert_eq!(acc.window_count(), 2);
    assert_eq!(acc.window(0), &[1, 2, 3, 4][..]);
    assert_eq!(acc.window(1), &[5, 6, 7, 8][..]);
    acc.extend(&[11, 12]);
    assert_eq!(acc.window_count(), 3);
    assert_eq!(acc.window(2), &[9, 10, 11, 12][..]);
}

#[test]
fn empty_chunk_changes_nothing() {
    let mut acc: SampleWindows<f32> = SampleWindows::new(2);
    acc.extend(&[]);
    assert_eq!(acc.len(), 0);
    acc.extend(&[0.5, -0.5]);
    assert_eq!(acc.window(0), &[0.5, -0.5][..]);
}

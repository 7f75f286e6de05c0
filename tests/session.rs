use gesynth::session::{Session, SynthError};

#[test]
fn buffer_len_of_fifth_second_at_48k() {
    let s = Session::new(48000, 200).unwrap();
    assert_eq!(s.buffer_len(), 9600);
    assert_eq!(s.sample_rate(), 48000);
    assert_eq!(s.playtime_ms(), 200);
}

#[test]
fn buffer_len_truncates() {
    // 1 ms at 44100 Hz is 44.1 samples.
    let s = Session::new(44100, 1).unwrap();
    assert_eq!(s.buffer_len(), 44);
    let s = Session::new(7, 999).unwrap();
    assert_eq!(s.buffer_len(), 6);
}

#[test]
fn zero_playtime_gives_empty_buffer() {
    let s = Session::new(48000, 0).unwrap();
    assert_eq!(s.buffer_len(), 0);
}

#[test]
fn largest_configuration_does_not_overflow() {
    let s = Session::new(u32::MAX, i64::MAX).unwrap();
    let expected = (i64::MAX as u128) * (u32::MAX as u128) / 1000;
    assert_eq!(s.buffer_len(), expected);
}

#[test]
fn zero_sample_rate_is_rejected() {
    assert_eq!(Session::new(0, 200), Err(SynthError::InvalidConfiguration));
}

#[test]
fn negative_playtime_is_rejected() {
    assert_eq!(Session::new(48000, -1), Err(SynthError::InvalidConfiguration));
    assert_eq!(Session::new(0, -5), Err(SynthError::InvalidConfiguration));
}

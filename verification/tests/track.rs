use audio_vis::error::EngineError;
use audio_vis::track::Track;

fn mono(samples: &[i16], rate: u32) -> Track {
    Track::new(samples.to_vec(), 1, rate).unwrap()
}

fn draw(track: &mut Track, n: usize) -> Vec<Option<i16>> {
    let mut out = Vec::new();
    for _ in 0..n {
        out.push(track.next());
    }
    out
}

#[test]
fn no_track_without_channels_or_rate() {
    assert!(Track::new(vec![1, 2, 3], 0, 44_100).is_none());
    assert!(Track::new(vec![1, 2, 3], 2, 0).is_none());
    assert!(Track::new(vec![], 0, 0).is_none());
    assert!(Track::new(vec![], 1, 1).is_some());
}

#[test]
fn a_new_track_reports_its_format() {
    let t = Track::new(vec![1, 2, 3, 4, 5, 6], 2, 48_000).unwrap();
    assert_eq!(t.channels(), 2);
    assert_eq!(t.sample_rate(), 48_000);
    assert_eq!(t.frame_count(), 3);
}

#[test]
fn a_broken_last_frame_does_not_count() {
    let mut t = Track::new(vec![1, 2, 3], 2, 4).unwrap();
    assert_eq!(t.frame_count(), 1);
    assert_eq!(draw(&mut t, 4), vec![Some(1), Some(2), None, None]);
}

#[test]
fn samples_come_in_order_and_then_nothing() {
    let mut t = mono(&[10, 20, 30, 40], 4);
    assert_eq!(draw(&mut t, 6), vec![Some(10), Some(20), Some(30), Some(40), None, None]);
}

#[test]
fn stereo_comes_interleaved() {
    let mut t = Track::new(vec![1, 2, 3, 4], 2, 4).unwrap();
    assert_eq!(draw(&mut t, 5), vec![Some(1), Some(2), Some(3), Some(4), None]);
}

#[test]
fn an_empty_track_gives_nothing() {
    let mut t = mono(&[], 44_100);
    assert_eq!(t.frame_count(), 0);
    assert_eq!(draw(&mut t, 3), vec![None, None, None]);
}

#[test]
fn mono_fills_both_channels_of_a_stereo_device() {
    let mut t = mono(&[10, 20], 4);
    assert!(t.set_output(2, 4, 1000));
    assert_eq!(draw(&mut t, 5), vec![Some(10), Some(10), Some(20), Some(20), None]);
}

#[test]
fn stereo_on_a_mono_device_gives_its_first_channel() {
    let mut t = Track::new(vec![1, 2, 3, 4, 5, 6], 2, 4).unwrap();
    assert!(t.set_output(1, 4, 1000));
    assert_eq!(draw(&mut t, 4), vec![Some(1), Some(3), Some(5), None]);
}

#[test]
fn extra_device_channels_repeat_the_last_source_channel() {
    let mut t = Track::new(vec![1, 2, 3, 4], 2, 4).unwrap();
    assert!(t.set_output(3, 4, 1000));
    assert_eq!(
        draw(&mut t, 7),
        vec![Some(1), Some(2), Some(2), Some(3), Some(4), Some(4), None]
    );
}

#[test]
fn double_speed_takes_every_other_frame() {
    let mut t = mono(&[10, 20, 30, 40, 50], 4);
    assert!(t.set_output_sample_rate(4, 2000));
    assert_eq!(draw(&mut t, 4), vec![Some(10), Some(30), Some(50), None]);
}

#[test]
fn half_speed_holds_every_frame_twice() {
    let mut t = mono(&[10, 20, 30], 4);
    assert!(t.set_output_sample_rate(4, 500));
    assert_eq!(
        draw(&mut t, 7),
        vec![Some(10), Some(10), Some(20), Some(20), Some(30), Some(30), None]
    );
}

#[test]
fn a_faster_device_holds_frames_and_a_slower_one_drops_them() {
    let mut up = mono(&[10, 20, 30], 4);
    assert!(up.set_output_sample_rate(8, 1000));
    assert_eq!(
        draw(&mut up, 7),
        vec![Some(10), Some(10), Some(20), Some(20), Some(30), Some(30), None]
    );
    let mut down = mono(&[10, 20, 30, 40, 50], 4);
    assert!(down.set_output_sample_rate(2, 1000));
    assert_eq!(draw(&mut down, 4), vec![Some(10), Some(30), Some(50), None]);
}

#[test]
fn three_halves_speed_steps_by_one_and_two() {
    // The head moves 1.5 frames for each output frame: 0, 1.5, 3, 4.5, 6.
    let mut t = mono(&[0, 1, 2, 3, 4, 5, 6, 7], 4);
    assert!(t.set_output_sample_rate(4, 1500));
    assert_eq!(
        draw(&mut t, 6),
        vec![Some(0), Some(1), Some(3), Some(4), Some(6), Some(7)]
    );
    assert_eq!(t.next(), None);
}

#[test]
fn a_zero_in_the_output_format_is_refused() {
    let mut t = mono(&[10, 20, 30], 4);
    assert_eq!(t.next(), Some(10));
    assert!(!t.set_output(0, 4, 1000));
    assert!(!t.set_output(1, 0, 1000));
    assert!(!t.set_output(1, 4, 0));
    assert!(!t.set_output_sample_rate(0, 1000));
    assert!(!t.set_output_sample_rate(4, 0));
    assert_eq!(draw(&mut t, 3), vec![Some(20), Some(30), None]);
}

#[test]
fn seek_goes_to_the_frame_at_or_before_the_target() {
    let mut t = mono(&[10, 20, 30, 40, 50, 60, 70, 80], 4);
    assert_eq!(t.seek(500_000_000), Ok(2));
    assert_eq!(t.next(), Some(30));
    assert_eq!(t.seek(600_000_000), Ok(2));
    assert_eq!(t.next(), Some(30));
    assert_eq!(t.seek(749_999_999), Ok(2));
    assert_eq!(t.next(), Some(30));
    assert_eq!(t.seek(750_000_000), Ok(3));
    assert_eq!(t.next(), Some(40));
}

#[test]
fn seek_goes_back_as_well_as_forward() {
    let mut t = mono(&[10, 20, 30, 40], 4);
    assert_eq!(draw(&mut t, 3), vec![Some(10), Some(20), Some(30)]);
    assert_eq!(t.seek(250_000_000), Ok(1));
    assert_eq!(draw(&mut t, 2), vec![Some(20), Some(30)]);
}

#[test]
fn seek_before_the_start_goes_to_the_start() {
    let mut t = mono(&[10, 20, 30], 4);
    assert_eq!(draw(&mut t, 2), vec![Some(10), Some(20)]);
    assert_eq!(t.seek(-1), Ok(0));
    assert_eq!(t.next(), Some(10));
    assert_eq!(t.seek(i64::MIN), Ok(0));
    assert_eq!(t.next(), Some(10));
}

#[test]
fn seek_past_the_end_leaves_nothing_to_draw() {
    let mut t = mono(&[10, 20, 30], 4);
    assert_eq!(t.seek(10_000_000_000), Ok(40));
    assert_eq!(draw(&mut t, 3), vec![None, None, None]);
    assert_eq!(t.seek(0), Ok(0));
    assert_eq!(t.next(), Some(10));
}

#[test]
fn seek_counts_the_frames_of_the_output() {
    // Half a second is frame 2 of the track. At double speed that is one
    // frame of output, on a device twice as fast it is four.
    let mut fast = mono(&[10, 20, 30, 40], 4);
    assert!(fast.set_output_sample_rate(4, 2000));
    assert_eq!(fast.seek(500_000_000), Ok(1));
    assert_eq!(fast.next(), Some(30));
    let mut wide = mono(&[10, 20, 30, 40], 4);
    assert!(wide.set_output_sample_rate(8, 1000));
    assert_eq!(wide.seek(500_000_000), Ok(4));
    assert_eq!(wide.next(), Some(30));
}

#[test]
fn seek_starts_a_frame_at_its_first_channel() {
    let mut t = Track::new(vec![1, 2, 3, 4, 5, 6], 2, 4).unwrap();
    assert_eq!(t.next(), Some(1));
    assert_eq!(t.seek(250_000_000), Ok(1));
    assert_eq!(draw(&mut t, 2), vec![Some(3), Some(4)]);
}

#[test]
fn seek_fails_where_the_frame_does_not_fit() {
    let mut t = mono(&[10, 20, 30], u32::MAX);
    assert_eq!(t.next(), Some(10));
    assert_eq!(t.seek(i64::MAX), Err(EngineError::SeekError));
    // The head is where it was.
    assert_eq!(t.next(), Some(20));
}

#[test]
fn seek_fails_where_the_output_count_does_not_fit() {
    // The frame index fits, the frames of a far faster output do not.
    let mut t = mono(&[10, 20, 30], 1);
    assert!(t.set_output_sample_rate(u32::MAX, 1));
    assert_eq!(t.next(), Some(10));
    assert_eq!(t.seek(i64::MAX), Err(EngineError::SeekError));
    assert!(t.set_output_sample_rate(1, 1000));
    assert_eq!(t.seek(i64::MAX), Ok(9_223_372_036));
}

#[test]
fn a_track_shows_its_samples() {
    let mut t = Track::new(vec![1, 2, 3, 4, 5], 2, 4).unwrap();
    assert_eq!(t.samples(), &vec![1, 2, 3, 4, 5]);
    t.next();
    assert!(t.set_output(1, 8, 2000));
    assert_eq!(t.seek(250_000_000), Ok(1));
    assert_eq!(t.samples(), &vec![1, 2, 3, 4, 5]);
}

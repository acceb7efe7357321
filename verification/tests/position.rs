use audio_vis::position::PlaybackPosition;

#[test]
fn nothing_is_read_before_a_track_started() {
    assert_eq!(PlaybackPosition::NotStarted.music_position(0), None);
    assert_eq!(PlaybackPosition::NotStarted.music_position(i64::MAX), None);
}

#[test]
fn seeking_and_paused_are_frozen() {
    let seeking = PlaybackPosition::Seeking { target: 8_000_000_000 };
    assert_eq!(seeking.music_position(0), Some(8_000_000_000));
    assert_eq!(seeking.music_position(123_456), Some(8_000_000_000));
    let paused = PlaybackPosition::Paused { position: 7 };
    assert_eq!(paused.music_position(i64::MIN), Some(7));
    assert_eq!(paused.music_position(i64::MAX), Some(7));
}

#[test]
fn playing_adds_the_time_since_the_anchor() {
    let p = PlaybackPosition::Playing { position: 1_000_000_000, anchor: 100, speed: 1000 };
    assert_eq!(p.music_position(100), Some(1_000_000_000));
    assert_eq!(p.music_position(100 + 500_000_000), Some(1_500_000_000));
}

#[test]
fn playing_scales_the_time_by_the_speed() {
    let double = PlaybackPosition::Playing { position: 1_000_000_000, anchor: 100, speed: 2000 };
    assert_eq!(double.music_position(100 + 500_000_000), Some(2_000_000_000));
    let half = PlaybackPosition::Playing { position: 1_000_000_000, anchor: 100, speed: 500 };
    assert_eq!(half.music_position(100 + 500_000_000), Some(1_250_000_000));
    let still = PlaybackPosition::Playing { position: 9, anchor: 0, speed: 0 };
    assert_eq!(still.music_position(1_000_000), Some(9));
}

#[test]
fn playing_rounds_down() {
    let p = PlaybackPosition::Playing { position: 10, anchor: 0, speed: 1500 };
    assert_eq!(p.music_position(1), Some(11));
    assert_eq!(p.music_position(3), Some(14));
    assert_eq!(p.music_position(-1), Some(8));
    assert_eq!(p.music_position(-2), Some(7));
}

#[test]
fn an_anchor_in_the_future_gives_a_small_step_back() {
    let p = PlaybackPosition::Playing {
        position: 2_000_000_000,
        anchor: 1_000_000,
        speed: 1000,
    };
    assert_eq!(p.music_position(1_000_000 - 1500), Some(2_000_000_000 - 1500));
    let early = PlaybackPosition::Playing { position: 0, anchor: 50, speed: 1000 };
    assert_eq!(early.music_position(20), Some(-30));
}

#[test]
fn playing_handles_the_widest_span() {
    let p = PlaybackPosition::Playing { position: u64::MAX, anchor: i64::MIN, speed: u32::MAX };
    let elapsed = i64::MAX as i128 - i64::MIN as i128;
    let expected = u64::MAX as i128 + u32::MAX as i128 * elapsed / 1000;
    assert_eq!(p.music_position(i64::MAX), Some(expected));
    let q = PlaybackPosition::Playing { position: 0, anchor: i64::MAX, speed: u32::MAX };
    let behind = i64::MAX as i128 - i64::MIN as i128;
    let lost = (u32::MAX as i128 * behind + 999) / 1000;
    assert_eq!(q.music_position(i64::MIN), Some(-lost));
}

#[test]
fn twice_the_speed_gains_twice_as_much() {
    let single = PlaybackPosition::Playing { position: 5, anchor: 10, speed: 1000 };
    let double = PlaybackPosition::Playing { position: 5, anchor: 10, speed: 2000 };
    for now in [10i64, 11, 1_000, 123_456_789, 7, -40] {
        let one = single.music_position(now).unwrap() - 5;
        let two = double.music_position(now).unwrap() - 5;
        assert_eq!(two, 2 * one);
    }
}

#[test]
fn playing_never_goes_back_in_time() {
    let p = PlaybackPosition::Playing { position: 100, anchor: 0, speed: 1234 };
    let mut last = p.music_position(-50).unwrap();
    for now in -49i64..200 {
        let here = p.music_position(now).unwrap();
        assert!(here >= last);
        last = here;
    }
}

#[test]
fn only_playing_is_playing() {
    assert!(!PlaybackPosition::NotStarted.is_playing());
    assert!(!PlaybackPosition::Seeking { target: 1 }.is_playing());
    assert!(!PlaybackPosition::Paused { position: 1 }.is_playing());
    assert!(PlaybackPosition::Playing { position: 1, anchor: 2, speed: 3 }.is_playing());
}

#[test]
fn a_seek_request_shows_its_target_at_once() {
    assert_eq!(
        PlaybackPosition::seeking(8_000_000_000),
        PlaybackPosition::Seeking { target: 8_000_000_000 }
    );
    assert_eq!(PlaybackPosition::seeking(0), PlaybackPosition::Seeking { target: 0 });
}

#[test]
fn a_seek_request_before_the_start_shows_zero() {
    assert_eq!(PlaybackPosition::seeking(-1), PlaybackPosition::Seeking { target: 0 });
    assert_eq!(PlaybackPosition::seeking(i64::MIN), PlaybackPosition::Seeking { target: 0 });
}

#[test]
fn the_last_snapshot_wins() {
    let mut store = PlaybackPosition::NotStarted;
    store.publish(None);
    assert_eq!(store, PlaybackPosition::NotStarted);
    store.publish(Some(PlaybackPosition::Paused { position: 3 }));
    assert_eq!(store, PlaybackPosition::Paused { position: 3 });
    store.publish(None);
    assert_eq!(store, PlaybackPosition::Paused { position: 3 });
    store.publish(Some(PlaybackPosition::Seeking { target: 9 }));
    store.publish(Some(PlaybackPosition::NotStarted));
    assert_eq!(store, PlaybackPosition::NotStarted);
}

use audio_vis::error::EngineError;
use audio_vis::format::sniff_format;
use audio_vis::format::AudioFormat;

#[test]
fn mp3_and_wav_are_told_by_extension() {
    assert_eq!(sniff_format("song.mp3"), Ok(AudioFormat::Mp3));
    assert_eq!(sniff_format("src/c4_maj.wav"), Ok(AudioFormat::Wav));
    assert_eq!(sniff_format(".mp3"), Ok(AudioFormat::Mp3));
    assert_eq!(sniff_format("a.wav.mp3"), Ok(AudioFormat::Mp3));
    assert_eq!(sniff_format("a.mp3.wav"), Ok(AudioFormat::Wav));
}

#[test]
fn other_endings_are_refused() {
    assert_eq!(sniff_format("song.flac"), Err(EngineError::UnsupportedFormat));
    assert_eq!(sniff_format("song.ogg"), Err(EngineError::UnsupportedFormat));
    assert_eq!(sniff_format("song.mp3 "), Err(EngineError::UnsupportedFormat));
    assert_eq!(sniff_format("song.mp4"), Err(EngineError::UnsupportedFormat));
    assert_eq!(sniff_format("songmp3"), Err(EngineError::UnsupportedFormat));
    assert_eq!(sniff_format("song.wav/"), Err(EngineError::UnsupportedFormat));
}

#[test]
fn short_paths_are_refused() {
    assert_eq!(sniff_format(""), Err(EngineError::UnsupportedFormat));
    assert_eq!(sniff_format("mp3"), Err(EngineError::UnsupportedFormat));
    assert_eq!(sniff_format("wav"), Err(EngineError::UnsupportedFormat));
    assert_eq!(sniff_format("."), Err(EngineError::UnsupportedFormat));
}

#[test]
fn the_extension_is_read_in_lower_case() {
    assert_eq!(sniff_format("song.MP3"), Err(EngineError::UnsupportedFormat));
    assert_eq!(sniff_format("song.Wav"), Err(EngineError::UnsupportedFormat));
}

#[test]
fn paths_are_read_by_characters() {
    assert_eq!(sniff_format("müsik/tröt.wav"), Ok(AudioFormat::Wav));
    assert_eq!(sniff_format("日本語.mp3"), Ok(AudioFormat::Mp3));
    assert_eq!(sniff_format("日本語"), Err(EngineError::UnsupportedFormat));
    assert_eq!(sniff_format("日.本語"), Err(EngineError::UnsupportedFormat));
}

use helix::audio::AudioPlayerError;

#[test]
fn audio_error_messages() {
    assert_eq!(AudioPlayerError::NoDefaultOutputDevice.message(), "No default output device");
    assert_eq!(AudioPlayerError::DualChannelNotSupported.message(), "Dual channel not supported");
}

use helix::audio::{decode_pcm16, deinterleave, interleave};

#[test]
fn pcm16_is_little_endian_and_drops_odd_byte() {
    assert_eq!(decode_pcm16(&[0x34, 0x12, 0xff, 0xff, 0x01]), vec![0x1234, -1]);
    assert!(decode_pcm16(&[]).is_empty());
}

#[test]
fn channels_round_trip() {
    let samples = [1, 2, 3, 4, 5, 6, 7];
    let waves = deinterleave(&samples, 3, 2);
    assert_eq!(waves, vec![vec![1, 3, 5], vec![2, 4, 6]]);
    assert_eq!(interleave(&waves), vec![1, 2, 3, 4, 5, 6]);
}

use sound_image::encoder::{
    brightness, brightness_values, clip_format, encode_clip, encode_image, pixel_sample, EncodeError,
};
use std::io::Cursor;

fn wav_bytes(samples: &[i16]) -> Vec<u8> {
    let spec = hound::WavSpec {
        channels: 1,
        sample_rate: 44100,
        bits_per_sample: 16,
        sample_format: hound::SampleFormat::Int,
    };
    let mut cursor = Cursor::new(Vec::new());
    {
        let mut writer = hound::WavWriter::new(&mut cursor, spec).unwrap();
        for s in samples {
            writer.write_sample(*s).unwrap();
        }
        writer.finalize().unwrap();
    }
    cursor.into_inner()
}

fn wav_samples(bytes: &[u8]) -> (hound::WavSpec, Vec<i16>) {
    let mut reader = hound::WavReader::new(Cursor::new(bytes)).unwrap();
    let spec = reader.spec();
    let samples = reader.samples::<i16>().map(|s| s.unwrap()).collect();
    (spec, samples)
}

#[test]
fn brightness_is_mean_of_channels() {
    assert_eq!(brightness(255, 255, 255), 255);
    assert_eq!(brightness(10, 20, 31), 20);
    assert_eq!(brightness(0, 0, 2), 0);
    assert_eq!(brightness_values(&vec![3, 6, 9, 255, 255, 0, 0, 0, 1]), vec![6, 85]);
}

#[test]
fn extreme_pixels_map_to_full_scale() {
    assert_eq!(pixel_sample(0), -32767);
    assert_eq!(pixel_sample(255), 32767);
    assert_eq!(pixel_sample(128), 128);
    assert_eq!(pixel_sample(127), -128);
}

#[test]
fn clip_is_tone_then_pixels() {
    assert_eq!(encode_clip(&vec![5, -5], &vec![0, 255]), vec![5, -5, -32767, 32767]);
}

#[test]
fn two_pixel_image_encodes_to_full_scale_samples() {
    let tone = vec![100i16, -100, 200];
    let rgba = vec![0, 0, 0, 255, 255, 255, 255, 255];
    let out = encode_image(&wav_bytes(&tone), &rgba).unwrap();
    let (spec, samples) = wav_samples(&out);
    assert_eq!(spec.channels, 1);
    assert_eq!(spec.sample_rate, 44100);
    assert_eq!(spec.bits_per_sample, 16);
    assert_eq!(samples, vec![100, -100, 200, -32767, 32767]);
    let format = clip_format();
    assert_eq!((format.channels, format.sample_rate, format.bits_per_sample), (1, 44100, 16));
}

#[test]
fn unreadable_tone_is_reported() {
    assert_eq!(encode_image(&vec![1, 2, 3], &vec![0, 0, 0, 255]), Err(EncodeError::ToneUnreadable));
}

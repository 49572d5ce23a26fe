use sound_image::detector::{
    bin_index, fft_size, Detector, DetectorError, Tone, DEFAULT_WINDOW, MAX_WINDOW, SAMPLE_RATE_HZ,
};

#[test]
fn fft_size_rounds_up_to_power_of_two() {
    assert_eq!(fft_size(0), 1);
    assert_eq!(fft_size(1), 1);
    assert_eq!(fft_size(500), 512);
    assert_eq!(fft_size(512), 512);
    assert_eq!(fft_size(513), 1024);
}

#[test]
fn bins_of_the_standard_tones() {
    assert_eq!(bin_index(200, 512, 44100), 2);
    assert_eq!(bin_index(16000, 512, 44100), 186);
    assert_eq!(bin_index(22050, 512, 44100), 256);
    assert_eq!(bin_index(0, 512, 44100), 0);
}

#[test]
fn standard_detector_configuration() {
    let d = Detector::standard();
    assert_eq!(d.window_len(), DEFAULT_WINDOW);
    assert_eq!(d.sample_rate(), SAMPLE_RATE_HZ);
}

#[test]
fn construction_errors() {
    let tones = vec![Tone { freq_hz: 200, min_magnitude: 10 }];
    assert_eq!(Detector::new(512, 0, tones.clone()).err(), Some(DetectorError::ZeroSampleRate));
    assert_eq!(
        Detector::new(MAX_WINDOW + 1, 44100, tones.clone()).err(),
        Some(DetectorError::WindowTooLarge)
    );
    let high = vec![Tone { freq_hz: 200, min_magnitude: 10 }, Tone { freq_hz: 23000, min_magnitude: 1 }];
    assert_eq!(
        Detector::new(512, 44100, high).err(),
        Some(DetectorError::AboveNyquist { index: 1 })
    );
    let d = Detector::new(300, 44100, tones).unwrap();
    assert_eq!(d.window_len(), 512);
}

#[test]
fn spectrum_above_thresholds_fires() {
    let d = Detector::standard();
    let mut mags = vec![0u64; 512];
    mags[2] = 10;
    mags[186] = 15;
    assert!(d.tones_present(&mags));
}

#[test]
fn spectrum_below_a_threshold_does_not_fire() {
    let d = Detector::standard();
    let mut mags = vec![0u64; 512];
    mags[2] = 9;
    mags[186] = 100;
    assert!(!d.tones_present(&mags));
    mags[2] = 100;
    mags[186] = 14;
    assert!(!d.tones_present(&mags));
}

#[test]
fn zero_spectrum_does_not_fire() {
    let d = Detector::standard();
    assert!(!d.tones_present(&vec![0u64; 512]));
}

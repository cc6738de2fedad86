use adc_spectrum::buffer::SampleBuffer;
use adc_spectrum::offset::center;
use adc_spectrum::report::{ReportAction, ReportSink, BIN_COUNT};
use micromath::F32Ext;

/// The samples that a centered block stands for: each value over the count.
fn samples_of(values: &[i64]) -> [f32; 1024] {
    let mut samples = [0.0f32; 1024];
    for (slot, value) in samples.iter_mut().zip(values) {
        *slot = *value as f32 / 1024.0;
    }
    samples
}

/// Magnitudes of the spectrum of a centered block, one for each bin.
fn magnitudes(values: &[i64]) -> Vec<f32> {
    let mut samples = samples_of(values);
    let spectrum = microfft::real::rfft_1024(&mut samples);
    spectrum.iter().map(|bin| F32Ext::sqrt(bin.norm_sqr())).collect()
}

#[test]
fn constant_block_has_an_empty_spectrum() {
    let buffer = SampleBuffer::from_samples(vec![1000; 1024]).unwrap();
    let (values, total) = center(&buffer);
    assert_eq!(total as f32 / 1024.0, 1000.0);
    assert_eq!(values, vec![0; 1024]);
    let spectrum = magnitudes(&values);
    assert_eq!(spectrum.len(), BIN_COUNT);
    for magnitude in spectrum {
        assert!(magnitude.abs() < 1e-6);
    }
}

#[test]
fn zero_block_has_an_empty_spectrum() {
    let (values, total) = center(&SampleBuffer::zeroed());
    assert_eq!(total, 0);
    for magnitude in magnitudes(&values) {
        assert!(magnitude.abs() < 1e-6);
    }
}

#[test]
fn one_full_scale_cycle_peaks_in_bin_one() {
    let samples: Vec<u16> = (0..1024)
        .map(|n| {
            let phase = 2.0 * std::f64::consts::PI * n as f64 / 1024.0;
            (32767.5 + 32767.5 * phase.sin()).round() as u16
        })
        .collect();
    let (values, total) = center(&SampleBuffer::from_samples(samples).unwrap());
    assert!((total as f32 / 1024.0 - 32767.5).abs() < 0.5);
    let spectrum = magnitudes(&values);
    let peak = spectrum[1];
    // Half the samples times the amplitude, within what the square root gives away.
    assert!(peak > 0.9 * 512.0 * 32767.5 && peak < 1.1 * 512.0 * 32767.5);
    for (bin, magnitude) in spectrum.iter().enumerate() {
        if bin != 1 {
            assert!(*magnitude < peak * 1e-3);
        }
    }
}

#[test]
fn alternating_block_peaks_at_the_highest_frequency() {
    let samples: Vec<u16> = (0..1024).map(|n| if n % 2 == 0 { 0 } else { 65535 }).collect();
    let (values, total) = center(&SampleBuffer::from_samples(samples).unwrap());
    assert_eq!(total as f32 / 1024.0, 32767.5);
    let mut samples = samples_of(&values);
    assert_eq!(samples[0], -32767.5);
    assert_eq!(samples[1], 32767.5);
    let spectrum = microfft::real::rfft_1024(&mut samples);
    // The transform keeps the coefficient of the highest frequency beside the
    // constant term, as the imaginary part of the first bin.
    assert!(spectrum[0].re.abs() < 64.0);
    assert!((spectrum[0].im.abs() - 33_553_920.0).abs() < 64.0);
    for bin in spectrum.iter().skip(1) {
        assert!(F32Ext::sqrt(bin.norm_sqr()) < 33_553_920.0 * 1e-3);
    }
}

#[test]
fn report_walks_the_whole_spectrum() {
    let buffer = SampleBuffer::from_samples((0..1024).map(|n| (n % 16) as u16).collect()).unwrap();
    let (values, _) = center(&buffer);
    let spectrum = magnitudes(&values);
    let mut sink = ReportSink::new();
    let mut lines = Vec::new();
    while !sink.is_idle() {
        if let ReportAction::Emit { bin } = sink.next() {
            lines.push(format!("{},{}", bin, spectrum[bin]));
        }
    }
    assert_eq!(lines.len(), 512);
    assert!(lines[0].starts_with("0,"));
    assert!(lines[511].starts_with("511,"));
}

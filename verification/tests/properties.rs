use num::complex::Complex64;

use fourier::dft::{dft, dft_complex, idft};
use fourier::error::FftError;
use fourier::fft::{fft, fft_complex, ifft, is_power_of_two};
use fourier::utils::generate_random_values;

fn sample(v: f64) -> Complex64 {
    Complex64::new(v, 0.0)
}

fn samples(vs: &[f64]) -> Vec<Complex64> {
    vs.iter().map(|&v| sample(v)).collect()
}

#[test]
fn rejection_on_every_non_power_of_two_length() {
    for n in [3usize, 5, 6, 100] {
        let x: Vec<Complex64> = (0..n).map(|i| sample(i as f64)).collect();
        assert_eq!(fft(&x), Err(FftError::NotAPowerOfTwo(n)));
        assert_eq!(ifft(&x), Err(FftError::NotAPowerOfTwo(n)));
        assert_eq!(fft_complex(&x), Err(FftError::NotAPowerOfTwo(n)));
    }
}

#[test]
fn rejection_on_empty_input() {
    let x: Vec<Complex64> = Vec::new();
    assert_eq!(fft(&x), Err(FftError::NotAPowerOfTwo(0)));
    assert_eq!(ifft(&x), Err(FftError::NotAPowerOfTwo(0)));
}

#[test]
fn power_of_two_check() {
    for n in [1usize, 2, 4, 8, 16, 1024] {
        assert!(is_power_of_two(n));
    }
    for n in [0usize, 3, 5, 6, 7, 100, 1023] {
        assert!(!is_power_of_two(n));
    }
}

#[test]
fn dft_and_fft_agree_on_power_of_two_lengths() {
    let x = samples(&[0.2, 0.2, 0.3, 0.4, 0.5, 0.6, 0.7, 0.8]);
    let d = dft(&x).unwrap();
    let f = fft(&x).unwrap();
    assert_eq!(d.len(), f.len());
    for i in 0..d.len() {
        assert!(
            (d[i] - f[i]).norm() < 1e-10,
            "bin {}: {} vs {}",
            i,
            d[i],
            f[i]
        );
    }
}

#[test]
fn length_is_preserved() {
    for n in [1usize, 2, 3, 4, 7, 8, 16] {
        let x: Vec<Complex64> = (0..n).map(|i| sample(i as f64 * 0.25)).collect();
        assert_eq!(dft(&x).unwrap().len(), n);
        assert_eq!(idft(&x).len(), n);
        if n.is_power_of_two() {
            assert_eq!(fft(&x).unwrap().len(), n);
            assert_eq!(ifft(&x).unwrap().len(), n);
        }
    }
}

#[test]
fn dft_round_trip_on_non_power_of_two_length() {
    let x = samples(&[0.9, 0.1, 0.5, 0.4, 0.7]);
    let r = dft(&x).unwrap();
    let o = idft(&r);
    assert_eq!(o.len(), x.len());
    for i in 0..x.len() {
        assert!((x[i].re - o[i].re).abs() < 1e-10);
    }
}

#[test]
fn dft_round_trip_on_single_sample() {
    let x = samples(&[0.75]);
    let r = dft(&x).unwrap();
    let o = idft(&r);
    assert_eq!(o.len(), 1);
    assert!((o[0].re - 0.75).abs() < 1e-12);
}

#[test]
fn real_input_transforms_drop_imaginary_parts() {
    // dft and fft of real-sample inputs only read the real parts, so junk
    // imaginary parts must not change the spectrum.
    let clean = samples(&[0.2, 0.4, 0.6, 0.8]);
    let dirty: Vec<Complex64> = clean.iter().map(|c| Complex64::new(c.re, 42.0)).collect();
    let d_clean = dft(&clean).unwrap();
    let d_dirty = dft(&dirty).unwrap();
    let f_clean = fft(&clean).unwrap();
    let f_dirty = fft(&dirty).unwrap();
    for i in 0..4 {
        assert_eq!(d_clean[i], d_dirty[i]);
        assert_eq!(f_clean[i], f_dirty[i]);
    }
    // dft_complex, in contrast, must see the imaginary parts.
    let c_clean = dft_complex(&clean).unwrap();
    let c_dirty = dft_complex(&dirty).unwrap();
    assert!((c_clean[0] - c_dirty[0]).norm() > 1.0);
}

#[test]
fn dft_of_two_samples_is_sum_and_difference() {
    // For n = 2 the kernel entries are e^0 = 1 and e^(pi*i) = -1, so the
    // spectrum is [x0 + x1, x0 - x1].
    let x = samples(&[0.25, 0.75]);
    let r = dft(&x).unwrap();
    assert!((r[0].re - 1.0).abs() < 1e-12);
    assert!((r[1].re + 0.5).abs() < 1e-12);
    assert!(r[0].im.abs() < 1e-12);
    assert!(r[1].im.abs() < 1e-12);
}

#[test]
fn fft_round_trip_keeps_samples_within_tolerance() {
    let x: Vec<Complex64> = generate_random_values();
    let head: Vec<Complex64> = x[..16].to_vec();
    let r = fft(&head).unwrap();
    let o = ifft(&r).unwrap();
    assert_eq!(o.len(), 16);
    for i in 0..16 {
        assert!((head[i].re - o[i].re).abs() < 1e-10);
        assert!(o[i].im == 0.0);
    }
}

#[test]
fn idft_divides_by_the_length() {
    // The inverse of the spectrum [c, c] is [(c + c)/2, ...] at index 0; on a
    // constant spectrum the division by n must bring the sample back to c.
    let x = samples(&[0.5, 0.5]);
    let o = idft(&x);
    assert!((o[0].re - 0.5).abs() < 1e-12);
    assert!((o[1].re - 0.0).abs() < 1e-12);
}

#[test]
fn generated_samples_are_real_valued() {
    let values = generate_random_values();
    assert_eq!(values.len(), 1024);
    for v in &values {
        assert_eq!(v.im, 0.0);
    }
}

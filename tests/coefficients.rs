use rusty_nbody::coefficients::{yoshida4_coefficients, HALF_W0_W1_BITS, HALF_W1_BITS, W0_BITS, W1_BITS};

#[test]
fn coefficient_values() {
    let w1 = f64::from_bits(W1_BITS);
    let w0 = f64::from_bits(W0_BITS);
    let cbrt2 = 2f64.cbrt();
    assert!((w1 - 1.0 / (2.0 - cbrt2)).abs() < 1e-15);
    assert!((w0 + cbrt2 / (2.0 - cbrt2)).abs() < 1e-15);
    assert_eq!(f64::from_bits(HALF_W1_BITS), w1 / 2.0);
    assert_eq!(f64::from_bits(HALF_W0_W1_BITS), (w0 + w1) / 2.0);
}

#[test]
fn coefficients_sum_to_one() {
    let k = yoshida4_coefficients();
    let c: Vec<f64> = k.c.iter().map(|b| f64::from_bits(*b)).collect();
    let d: Vec<f64> = k.d.iter().map(|b| f64::from_bits(*b)).collect();
    assert_eq!(c[0] + c[1] + c[2] + c[3], 1.0);
    assert_eq!(d[0] + d[1] + d[2], 1.0);
    assert_eq!(c[0], c[3]);
    assert_eq!(c[1], c[2]);
    assert_eq!(d[0], d[2]);
    assert!((c[0] - 0.6756035959798288).abs() < 1e-15);
    assert!((c[1] + 0.1756035959798288).abs() < 1e-15);
}

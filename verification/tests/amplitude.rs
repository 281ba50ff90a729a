use colored_noise::amplitude::Amplitude;
use colored_noise::error::Error;

#[test]
fn accepts_lower_boundary() {
    let bits = 0.01f32.to_bits();
    let a = Amplitude::validate(bits).expect("0.01 must be accepted");
    assert_eq!(a.bits(), bits);
}

#[test]
fn accepts_upper_boundary() {
    let bits = 100.0f32.to_bits();
    let a = Amplitude::validate(bits).expect("100.0 must be accepted");
    assert_eq!(a.bits(), bits);
}

#[test]
fn accepts_midrange() {
    assert!(Amplitude::validate(50.0f32.to_bits()).is_ok());
    assert!(Amplitude::validate(0.1f32.to_bits()).is_ok());
    assert!(Amplitude::validate(1.0f32.to_bits()).is_ok());
}

#[test]
fn rejects_zero() {
    let bits = 0.0f32.to_bits();
    assert_eq!(Amplitude::validate(bits), Err(Error::Amplitude(bits)));
}

#[test]
fn rejects_negative() {
    let bits = (-1.0f32).to_bits();
    assert_eq!(Amplitude::validate(bits), Err(Error::Amplitude(bits)));
    let bits = (-0.0f32).to_bits();
    assert_eq!(Amplitude::validate(bits), Err(Error::Amplitude(bits)));
}

#[test]
fn rejects_nan() {
    let bits = f32::NAN.to_bits();
    assert_eq!(Amplitude::validate(bits), Err(Error::Amplitude(bits)));
}

#[test]
fn rejects_infinity() {
    let bits = f32::INFINITY.to_bits();
    assert_eq!(Amplitude::validate(bits), Err(Error::Amplitude(bits)));
}

#[test]
fn rejects_just_below_lower_boundary() {
    let bits = 0.009999f32.to_bits();
    assert_eq!(Amplitude::validate(bits), Err(Error::Amplitude(bits)));
}

#[test]
fn rejects_just_above_upper_boundary() {
    let above = f32::from_bits(100.0f32.to_bits() + 1);
    assert!(above > 100.0);
    assert!(Amplitude::validate(above.to_bits()).is_err());
}

#[test]
fn rejects_subnormal() {
    let bits = f32::from_bits(1).to_bits();
    assert!(f32::from_bits(1).is_sign_positive());
    assert_eq!(Amplitude::validate(bits), Err(Error::Amplitude(bits)));
}
